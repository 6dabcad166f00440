//! The state of the chain that a block is verified against.

use vstd::prelude::*;
use crate::types::HardFork;

verus! {

/// One consistent reading of the chain state, as the context provider gave it.
///
/// `T` is the token that is invalidated when the chain is reorganised after the
/// snapshot was taken. The snapshot only carries it.
#[derive(Debug, PartialEq, Eq)]
pub struct ContextSnapshot<T> {
    /// Height of the block that is being verified.
    pub chain_height: u64,
    /// The hard fork in force at that height.
    pub current_hf: HardFork,
    /// Difficulty that the next block has to meet.
    pub next_difficulty: u128,
    /// Cumulative difficulty of the chain up to its top block.
    pub cumulative_difficulty: u128,
    /// The time against which time locks are judged.
    pub time_for_time_lock: u64,
    /// Invalidated when the chain state moves on.
    pub re_org_token: T,
}

/// The numbers of a snapshot that are still needed once the transactions have
/// been handed to the verifier.
#[derive(Clone, Copy, Debug, PartialEq, Eq)]
pub struct ChainPoint {
    pub chain_height: u64,
    pub current_hf: HardFork,
    pub next_difficulty: u128,
    pub cumulative_difficulty: u128,
}

impl<T> ContextSnapshot<T> {
    /// The chain point of this snapshot.
    pub open spec fn point(&self) -> ChainPoint {
        ChainPoint {
            chain_height: self.chain_height,
            current_hf: self.current_hf,
            next_difficulty: self.next_difficulty,
            cumulative_difficulty: self.cumulative_difficulty,
        }
    }
}

impl ChainPoint {
    /// Cumulative difficulty of the chain once a block has been added at this
    /// point.
    pub open spec fn next_cumulative_difficulty(&self) -> int {
        self.cumulative_difficulty + self.next_difficulty
    }

    /// Whether the cumulative difficulty after the next block fits in 128 bits.
    pub open spec fn consistent(&self) -> bool {
        self.next_cumulative_difficulty() <= u128::MAX
    }
}

} // verus!
