//! Why a block was not verified.

use vstd::prelude::*;

verus! {

/// A transaction that a block refers to is not in the pool.
#[derive(Clone, Copy, Debug, PartialEq, Eq)]
pub struct TxNotInPool;

/// A quantity of a block that does not fit the integer type that carries it.
#[derive(Clone, Copy, Debug, PartialEq, Eq)]
pub enum Unrepresentable {
    /// Miner transaction weight plus the weights of the included transactions.
    BlockWeight,
    /// The sum of the fees of the included transactions.
    TotalFees,
    /// Cumulative difficulty of the chain plus the difficulty of the next block.
    CumulativeDifficulty,
}

/// Why verification of a block ended without a verified record.
///
/// `R` is what a consensus rule reports when it rejects a block or a
/// transaction, `E` is what the context provider reports when it fails. Both are
/// handed on exactly as they were received.
#[derive(Debug, PartialEq, Eq)]
pub enum ExtendedConsensusError<R, E> {
    /// A consensus rule rejected the block or one of its transactions.
    ConErr(R),
    /// The context provider failed.
    DBErr(E),
    /// A transaction of the block is not in the pool.
    TxPErr(TxNotInPool),
    /// A total of the block cannot be represented.
    Overflow(Unrepresentable),
}

/// What a caller should make of a failure.
#[derive(Clone, Copy, Debug, PartialEq, Eq)]
pub enum FailureClass {
    /// The block is invalid for good; trying again cannot help.
    Rejection,
    /// Data was missing; the caller may fetch it and try again.
    MissingData,
    /// A collaborator failed; the block itself was not judged.
    Upstream,
}

impl<R, E> ExtendedConsensusError<R, E> {
    /// The class of this failure.
    pub open spec fn class_spec(&self) -> FailureClass {
        match self {
            ExtendedConsensusError::ConErr(_) => FailureClass::Rejection,
            ExtendedConsensusError::DBErr(_) => FailureClass::Upstream,
            ExtendedConsensusError::TxPErr(_) => FailureClass::MissingData,
            ExtendedConsensusError::Overflow(Unrepresentable::CumulativeDifficulty) => FailureClass::Upstream,
            ExtendedConsensusError::Overflow(_) => FailureClass::Rejection,
        }
    }

    /// Tells a permanent rejection from missing data and from a failed
    /// collaborator.
    pub fn class(&self) -> (class: FailureClass)
        ensures
            class == self.class_spec(),
    {
        match self {
            ExtendedConsensusError::ConErr(_) => FailureClass::Rejection,
            ExtendedConsensusError::DBErr(_) => FailureClass::Upstream,
            ExtendedConsensusError::TxPErr(_) => FailureClass::MissingData,
            ExtendedConsensusError::Overflow(Unrepresentable::CumulativeDifficulty) => FailureClass::Upstream,
            ExtendedConsensusError::Overflow(_) => FailureClass::Rejection,
        }
    }
}

} // verus!
