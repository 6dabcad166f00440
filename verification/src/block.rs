//! Verification of one candidate block.
//!
//! [`BlockVerification`] is the progress of one verification. It starts from a
//! request, and each [`VerifyEvent`] that the driver reports moves it one stage
//! on and yields the next [`VerifyAction`]. The stages come in a fixed order, and
//! the proof of work is asked for only when every cheaper check has passed.

use vstd::prelude::*;
use crate::context::{ChainPoint, ContextSnapshot};
use crate::error::{ExtendedConsensusError, TxNotInPool, Unrepresentable};
use crate::transactions::{
    block_weight, sum_block_weight, sum_fees, total_fees, TransactionVerificationData,
};
use crate::types::{Block, HardFork};

verus! {

/// A block that has been prepared for verification as part of a batch.
#[derive(Debug, PartialEq, Eq)]
pub struct PrePreparedBlock {
    pub block: Block,
    pub block_blob: Vec<u8>,
    pub hf_vote: HardFork,
    pub hf_version: HardFork,
    pub block_hash: [u8; 32],
    pub pow_hash: [u8; 32],
    pub miner_tx_weight: usize,
}

/// The record of a block that passed every check.
#[derive(Debug, PartialEq, Eq)]
pub struct VerifiedBlockInformation {
    pub block: Block,
    pub hf_vote: HardFork,
    pub txs: Vec<TransactionVerificationData>,
    pub block_hash: [u8; 32],
    pub pow_hash: [u8; 32],
    pub height: u64,
    pub generated_coins: u64,
    pub weight: usize,
    pub long_term_weight: usize,
    pub cumulative_difficulty: u128,
}

/// A request to verify a block.
#[derive(Debug, PartialEq, Eq)]
pub enum VerifyBlockRequest {
    /// A candidate for the top of the main chain.
    MainChain(Block),
}

/// The answer to a [`VerifyBlockRequest`].
#[derive(Debug, PartialEq, Eq)]
pub enum VerifyBlockResponse {
    MainChain(VerifiedBlockInformation),
    BatchSetup(Vec<PrePreparedBlock>),
}

/// What the driver has to do next.
#[derive(Debug, PartialEq, Eq)]
pub enum VerifyAction<T, R, E> {
    /// Ask the context provider for the current snapshot.
    GetContext,
    /// Ask the pool for the transactions with these hashes.
    ResolveTransactions { hashes: Vec<[u8; 32]> },
    /// Ask the verifier to judge these transactions as one batch.
    VerifyTransactions {
        txs: Vec<TransactionVerificationData>,
        current_chain_height: u64,
        time_for_time_lock: u64,
        hf: HardFork,
        re_org_token: T,
    },
    /// Apply the block rules with these totals.
    CheckBlockRules { total_fees: u64, block_weight: usize },
    /// Build the block's hashing blob and compute its proof-of-work hash, away
    /// from the scheduler.
    ComputePowHash { chain_height: u64, hf: HardFork },
    /// Judge the proof-of-work hash against the difficulty.
    CheckDifficulty { pow_hash: [u8; 32], difficulty: u128 },
    /// Ask the snapshot for the long-term weight of a block of this weight.
    LongTermWeight { block_weight: usize },
    /// Verification is over, with this result.
    Finish(Result<VerifyBlockResponse, ExtendedConsensusError<R, E>>),
}

/// What the driver reports back.
#[derive(Debug, PartialEq, Eq)]
pub enum VerifyEvent<T, R, E> {
    /// The context provider answered.
    Context(Result<ContextSnapshot<T>, E>),
    /// The pool answered.
    Transactions(Result<Vec<TransactionVerificationData>, TxNotInPool>),
    /// The transaction verifier answered.
    TransactionsVerified(Result<(), ExtendedConsensusError<R, E>>),
    /// The block rules answered; on success with the block's hard-fork vote and
    /// the coins that it generates.
    BlockRules(Result<(HardFork, u64), R>),
    /// The proof-of-work hash was computed, or could not be.
    PowHash(Result<[u8; 32], R>),
    /// The proof-of-work hash was judged against the difficulty.
    Difficulty(Result<(), R>),
    /// The long-term weight of the block.
    LongTermWeight(usize),
}

/// A stage of the verification of one block, with what has been gathered so
/// far.
#[derive(Debug, PartialEq, Eq)]
pub enum Stage<T> {
    AwaitingContext { block: Block },
    AwaitingTransactions { block: Block, context: ContextSnapshot<T> },
    AwaitingTxVerification { block: Block, point: ChainPoint, txs: Vec<TransactionVerificationData> },
    AwaitingBlockRules {
        block: Block,
        point: ChainPoint,
        txs: Vec<TransactionVerificationData>,
        weight: usize,
    },
    AwaitingPowHash {
        block: Block,
        point: ChainPoint,
        txs: Vec<TransactionVerificationData>,
        weight: usize,
        hf_vote: HardFork,
        generated_coins: u64,
    },
    AwaitingDifficulty {
        block: Block,
        point: ChainPoint,
        txs: Vec<TransactionVerificationData>,
        weight: usize,
        hf_vote: HardFork,
        generated_coins: u64,
        pow_hash: [u8; 32],
    },
    AwaitingLongTermWeight {
        block: Block,
        point: ChainPoint,
        txs: Vec<TransactionVerificationData>,
        weight: usize,
        hf_vote: HardFork,
        generated_coins: u64,
        pow_hash: [u8; 32],
        cumulative_difficulty: u128,
    },
    Finished,
}

/// The verification of one block, as far as it has come.
///
/// A verification is made by [`start`](BlockVerification::start) and moved on by
/// [`step`](BlockVerification::step) only, so it is never in a stage that it has
/// not reached report by report, and what it holds is always
/// [well formed](Stage::well_formed).
#[derive(Debug)]
pub struct BlockVerification<T> {
    stage: Stage<T>,
}

/// The three collaborators of block verification, held together.
///
/// The service keeps nothing else between two verifications, so any number of
/// them may run side by side, each on handles of its own. Two different blocks
/// that are both valid are both verified: which of them extends the chain is
/// decided by whoever commits the records.
pub struct BlockVerifierService<C: Clone, TxV: Clone, TxP: Clone> {
    context_svc: C,
    tx_verifier_svc: TxV,
    tx_pool: TxP,
}

impl<C: Clone, TxV: Clone, TxP: Clone> BlockVerifierService<C, TxV, TxP> {
    /// The handles that the service holds: the context provider, the
    /// transaction verifier and the transaction pool.
    pub closed spec fn handles(&self) -> (C, TxV, TxP) {
        (self.context_svc, self.tx_verifier_svc, self.tx_pool)
    }

    /// A service on these three handles.
    pub fn new(context_svc: C, tx_verifier_svc: TxV, tx_pool: TxP) -> (service:
        BlockVerifierService<C, TxV, TxP>)
        ensures
            service.handles() == (context_svc, tx_verifier_svc, tx_pool),
    {
        BlockVerifierService { context_svc, tx_verifier_svc, tx_pool }
    }

    /// The handle on the context provider.
    pub fn context_svc(&self) -> (handle: &C)
        ensures
            *handle == self.handles().0,
    {
        &self.context_svc
    }

    /// The handle on the transaction verifier.
    pub fn tx_verifier_svc(&self) -> (handle: &TxV)
        ensures
            *handle == self.handles().1,
    {
        &self.tx_verifier_svc
    }

    /// The handle on the transaction pool.
    pub fn tx_pool(&self) -> (handle: &TxP)
        ensures
            *handle == self.handles().2,
    {
        &self.tx_pool
    }

    /// Takes a request: hands out handles of its own for the new verification
    /// and starts it. The service itself is left as it was.
    pub fn call<T, R, E>(&self, req: VerifyBlockRequest) -> (job: (
        BlockVerifierService<C, TxV, TxP>,
        BlockVerification<T>,
        VerifyAction<T, R, E>,
    ))
        ensures
            cloned(self.handles().0, job.0.handles().0),
            cloned(self.handles().1, job.0.handles().1),
            cloned(self.handles().2, job.0.handles().2),
            job.1.stage() == Stage::<T>::initial(req),
            job.2 == VerifyAction::<T, R, E>::GetContext,
    {
        let (verification, action) = BlockVerification::start(req);
        (self.clone(), verification, action)
    }
}

impl<C: Clone, TxV: Clone, TxP: Clone> Clone for BlockVerifierService<C, TxV, TxP> {
    /// A service on clones of the three handles.
    fn clone(&self) -> (service: Self)
        ensures
            cloned(self.handles().0, service.handles().0),
            cloned(self.handles().1, service.handles().1),
            cloned(self.handles().2, service.handles().2),
    {
        BlockVerifierService {
            context_svc: self.context_svc.clone(),
            tx_verifier_svc: self.tx_verifier_svc.clone(),
            tx_pool: self.tx_pool.clone(),
        }
    }
}

/// A copy of `items`.
fn copy_of<A: Copy>(items: &Vec<A>) -> (copy: Vec<A>)
    ensures
        copy@ == items@,
{
    let mut copy: Vec<A> = Vec::new();
    let mut i: usize = 0;
    while i < items.len()
        invariant
            i <= items.len(),
            copy@ == items@.take(i as int),
        decreases items.len() - i,
    {
        copy.push(items[i]);
        proof {
            assert(items@.take(i + 1) =~= items@.take(i as int).push(items@[i as int]));
        }
        i = i + 1;
    }
    proof {
        assert(items@.take(i as int) =~= items@);
    }
    copy
}

impl<T> Stage<T> {
    /// The stage that a request starts in.
    pub open spec fn initial(req: VerifyBlockRequest) -> Self {
        match req {
            VerifyBlockRequest::MainChain(block) => Stage::AwaitingContext { block },
        }
    }

    /// Whether `event` is the report that this stage waits for.
    pub open spec fn expects<R, E>(self, event: VerifyEvent<T, R, E>) -> bool {
        match (self, event) {
            (Stage::AwaitingContext { .. }, VerifyEvent::Context(_)) => true,
            (Stage::AwaitingTransactions { .. }, VerifyEvent::Transactions(_)) => true,
            (
                Stage::AwaitingTxVerification { .. },
                VerifyEvent::TransactionsVerified(_),
            ) => true,
            (Stage::AwaitingBlockRules { .. }, VerifyEvent::BlockRules(_)) => true,
            (Stage::AwaitingPowHash { .. }, VerifyEvent::PowHash(_)) => true,
            (Stage::AwaitingDifficulty { .. }, VerifyEvent::Difficulty(_)) => true,
            (Stage::AwaitingLongTermWeight { .. }, VerifyEvent::LongTermWeight(_)) => true,
            _ => false,
        }
    }

    /// The result with which verification ends at `event`, or `None` if it goes
    /// on.
    pub open spec fn verdict<R, E>(self, event: VerifyEvent<T, R, E>) -> Option<
        Result<VerifyBlockResponse, ExtendedConsensusError<R, E>>,
    > {
        match (self, event) {
            (Stage::AwaitingContext { .. }, VerifyEvent::Context(Err(e))) => Some(
                Err(ExtendedConsensusError::DBErr(e)),
            ),
            (
                Stage::AwaitingTransactions { .. },
                VerifyEvent::Transactions(Err(missing)),
            ) => Some(Err(ExtendedConsensusError::TxPErr(missing))),
            (
                Stage::AwaitingTxVerification { .. },
                VerifyEvent::TransactionsVerified(Err(e)),
            ) => Some(Err(e)),
            (
                Stage::AwaitingTxVerification { block, txs, .. },
                VerifyEvent::TransactionsVerified(Ok(_)),
            ) => if block_weight(block.miner_tx_weight, txs@) > usize::MAX {
                Some(Err(ExtendedConsensusError::Overflow(Unrepresentable::BlockWeight)))
            } else if total_fees(txs@) > u64::MAX {
                Some(Err(ExtendedConsensusError::Overflow(Unrepresentable::TotalFees)))
            } else {
                None
            },
            (Stage::AwaitingBlockRules { .. }, VerifyEvent::BlockRules(Err(r))) => Some(
                Err(ExtendedConsensusError::ConErr(r)),
            ),
            (Stage::AwaitingPowHash { .. }, VerifyEvent::PowHash(Err(r))) => Some(
                Err(ExtendedConsensusError::ConErr(r)),
            ),
            (Stage::AwaitingDifficulty { .. }, VerifyEvent::Difficulty(Err(r))) => Some(
                Err(ExtendedConsensusError::ConErr(r)),
            ),
            (Stage::AwaitingDifficulty { point, .. }, VerifyEvent::Difficulty(Ok(_))) => if !point.consistent() {
                Some(Err(ExtendedConsensusError::Overflow(Unrepresentable::CumulativeDifficulty)))
            } else {
                None
            },
            (
                Stage::AwaitingLongTermWeight {
                    block,
                    point,
                    txs,
                    weight,
                    hf_vote,
                    generated_coins,
                    pow_hash,
                    cumulative_difficulty,
                },
                VerifyEvent::LongTermWeight(long_term_weight),
            ) => Some(
                Ok(
                    VerifyBlockResponse::MainChain(
                        VerifiedBlockInformation {
                            block,
                            hf_vote,
                            txs,
                            block_hash: block.block_hash,
                            pow_hash,
                            height: point.chain_height,
                            generated_coins,
                            weight,
                            long_term_weight,
                            cumulative_difficulty,
                        },
                    ),
                ),
            ),
            _ => None,
        }
    }

    /// The stage that follows when `event` is reported in this stage.
    pub open spec fn next<R, E>(self, event: VerifyEvent<T, R, E>) -> Self {
        if self.verdict(event) is Some {
            Stage::Finished
        } else {
            match (self, event) {
                (Stage::AwaitingContext { block }, VerifyEvent::Context(Ok(context))) => {
                    Stage::AwaitingTransactions { block, context }
                },
                (
                    Stage::AwaitingTransactions { block, context },
                    VerifyEvent::Transactions(Ok(txs)),
                ) => Stage::AwaitingTxVerification { block, point: context.point(), txs },
                (
                    Stage::AwaitingTxVerification { block, point, txs },
                    VerifyEvent::TransactionsVerified(Ok(_)),
                ) => Stage::AwaitingBlockRules {
                    block,
                    point,
                    txs,
                    weight: block_weight(block.miner_tx_weight, txs@) as usize,
                },
                (
                    Stage::AwaitingBlockRules { block, point, txs, weight },
                    VerifyEvent::BlockRules(Ok((hf_vote, generated_coins))),
                ) => Stage::AwaitingPowHash {
                    block,
                    point,
                    txs,
                    weight,
                    hf_vote,
                    generated_coins,
                },
                (
                    Stage::AwaitingPowHash {
                        block,
                        point,
                        txs,
                        weight,
                        hf_vote,
                        generated_coins,
                    },
                    VerifyEvent::PowHash(Ok(pow_hash)),
                ) => Stage::AwaitingDifficulty {
                    block,
                    point,
                    txs,
                    weight,
                    hf_vote,
                    generated_coins,
                    pow_hash,
                },
                (
                    Stage::AwaitingDifficulty {
                        block,
                        point,
                        txs,
                        weight,
                        hf_vote,
                        generated_coins,
                        pow_hash,
                    },
                    VerifyEvent::Difficulty(Ok(_)),
                ) => Stage::AwaitingLongTermWeight {
                    block,
                    point,
                    txs,
                    weight,
                    hf_vote,
                    generated_coins,
                    pow_hash,
                    cumulative_difficulty: point.next_cumulative_difficulty() as u128,
                },
                _ => Stage::Finished,
            }
        }
    }

    /// Whether `action` is what the driver is asked to do when `event` is
    /// reported in this stage.
    pub open spec fn requests<R, E>(
        self,
        event: VerifyEvent<T, R, E>,
        action: VerifyAction<T, R, E>,
    ) -> bool {
        match self.verdict(event) {
            Some(result) => action == VerifyAction::<T, R, E>::Finish(result),
            None => match (self, event) {
                (Stage::AwaitingContext { block }, VerifyEvent::Context(Ok(_))) => {
                    &&& action matches VerifyAction::ResolveTransactions { hashes }
                    &&& hashes@ == block.txs@
                },
                (
                    Stage::AwaitingTransactions { context, .. },
                    VerifyEvent::Transactions(Ok(resolved)),
                ) => {
                    &&& action matches VerifyAction::VerifyTransactions {
                        txs,
                        current_chain_height,
                        time_for_time_lock,
                        hf,
                        re_org_token,
                    }
                    &&& txs@ == resolved@
                    &&& current_chain_height == context.chain_height
                    &&& time_for_time_lock == context.time_for_time_lock
                    &&& hf == context.current_hf
                    &&& re_org_token == context.re_org_token
                },
                (
                    Stage::AwaitingTxVerification { block, txs, .. },
                    VerifyEvent::TransactionsVerified(Ok(_)),
                ) => action == VerifyAction::<T, R, E>::CheckBlockRules {
                    total_fees: total_fees(txs@) as u64,
                    block_weight: block_weight(block.miner_tx_weight, txs@) as usize,
                },
                (
                    Stage::AwaitingBlockRules { point, .. },
                    VerifyEvent::BlockRules(Ok(_)),
                ) => action == VerifyAction::<T, R, E>::ComputePowHash {
                    chain_height: point.chain_height,
                    hf: point.current_hf,
                },
                (
                    Stage::AwaitingPowHash { point, .. },
                    VerifyEvent::PowHash(Ok(pow_hash)),
                ) => action == VerifyAction::<T, R, E>::CheckDifficulty {
                    pow_hash,
                    difficulty: point.next_difficulty,
                },
                (
                    Stage::AwaitingDifficulty { weight, .. },
                    VerifyEvent::Difficulty(Ok(_)),
                ) => action == VerifyAction::<T, R, E>::LongTermWeight { block_weight: weight },
                _ => false,
            },
        }
    }

    /// Whether the totals that this stage holds are those of its block, its
    /// transactions and its chain point: the weight is that of the miner
    /// transaction and of every transaction, and the cumulative difficulty is that
    /// of the chain with the block's difficulty added.
    pub open spec fn well_formed(self) -> bool {
        match self {
            Stage::AwaitingBlockRules { block, txs, weight, .. } => weight == block_weight(
                block.miner_tx_weight,
                txs@,
            ),
            Stage::AwaitingPowHash { block, txs, weight, .. } => weight == block_weight(
                block.miner_tx_weight,
                txs@,
            ),
            Stage::AwaitingDifficulty { block, txs, weight, .. } => weight == block_weight(
                block.miner_tx_weight,
                txs@,
            ),
            Stage::AwaitingLongTermWeight { block, point, txs, weight, cumulative_difficulty, .. } => {
                &&& weight == block_weight(block.miner_tx_weight, txs@)
                &&& cumulative_difficulty == point.next_cumulative_difficulty()
            },
            _ => true,
        }
    }
}

impl<T> BlockVerification<T> {
    /// The stage that the verification is in.
    pub closed spec fn stage(&self) -> Stage<T> {
        self.stage
    }

    #[verifier::type_invariant]
    spec fn holds_its_totals(&self) -> bool {
        self.stage.well_formed()
    }

    /// Starts the verification of the block in `req`: the context is asked for
    /// first.
    pub fn start<R, E>(req: VerifyBlockRequest) -> (started: (Self, VerifyAction<T, R, E>))
        ensures
            started.0.stage() == Stage::<T>::initial(req),
            started.1 == VerifyAction::<T, R, E>::GetContext,
    {
        match req {
            VerifyBlockRequest::MainChain(block) => (
                BlockVerification { stage: Stage::AwaitingContext { block } },
                VerifyAction::GetContext,
            ),
        }
    }

    /// Whether verification has ended.
    pub fn is_finished(&self) -> (finished: bool)
        ensures
            finished == (self.stage() is Finished),
    {
        match self.stage {
            Stage::Finished => true,
            _ => false,
        }
    }

    /// Whether `event` is the report that this stage waits for. A driver checks
    /// this before it calls [`step`](Self::step).
    pub fn awaits<R, E>(&self, event: &VerifyEvent<T, R, E>) -> (awaited: bool)
        ensures
            awaited == self.stage().expects(*event),
    {
        match &self.stage {
            Stage::AwaitingContext { .. } => match event {
                VerifyEvent::Context(_) => true,
                _ => false,
            },
            Stage::AwaitingTransactions { .. } => match event {
                VerifyEvent::Transactions(_) => true,
                _ => false,
            },
            Stage::AwaitingTxVerification { .. } => match event {
                VerifyEvent::TransactionsVerified(_) => true,
                _ => false,
            },
            Stage::AwaitingBlockRules { .. } => match event {
                VerifyEvent::BlockRules(_) => true,
                _ => false,
            },
            Stage::AwaitingPowHash { .. } => match event {
                VerifyEvent::PowHash(_) => true,
                _ => false,
            },
            Stage::AwaitingDifficulty { .. } => match event {
                VerifyEvent::Difficulty(_) => true,
                _ => false,
            },
            Stage::AwaitingLongTermWeight { .. } => match event {
                VerifyEvent::LongTermWeight(_) => true,
                _ => false,
            },
            Stage::Finished => false,
        }
    }

    /// Takes the report of the action that was asked for last, and says what to
    /// do next.
    ///
    /// The first failure ends the verification with that failure; no record is
    /// produced then. A record is produced only at the last stage.
    ///
    /// Every record states the weight of its block: that of the miner
    /// transaction and of every transaction in it.
    pub fn step<R, E>(self, event: VerifyEvent<T, R, E>) -> (stepped: (Self, VerifyAction<T, R, E>))
        requires
            self.stage().expects(event),
        ensures
            stepped.0.stage() == self.stage().next(event),
            self.stage().requests(event, stepped.1),
            stepped.0.stage().well_formed(),
            stepped.1 matches VerifyAction::Finish(Ok(VerifyBlockResponse::MainChain(record)))
                ==> record.weight == block_weight(record.block.miner_tx_weight, record.txs@),
    {
        proof {
            use_type_invariant(&self);
        }
        let (stage, action) = match self.stage {
            Stage::AwaitingContext { block } => match event {
                VerifyEvent::Context(Ok(context)) => {
                    let hashes = copy_of(&block.txs);
                    (
                        Stage::AwaitingTransactions { block, context },
                        VerifyAction::ResolveTransactions { hashes },
                    )
                },
                VerifyEvent::Context(Err(e)) => (
                    Stage::Finished,
                    VerifyAction::Finish(Err(ExtendedConsensusError::DBErr(e))),
                ),
                _ => unreached(),
            },
            Stage::AwaitingTransactions { block, context } => match event {
                VerifyEvent::Transactions(Ok(txs)) => {
                    let handed = copy_of(&txs);
                    let point = ChainPoint {
                        chain_height: context.chain_height,
                        current_hf: context.current_hf,
                        next_difficulty: context.next_difficulty,
                        cumulative_difficulty: context.cumulative_difficulty,
                    };
                    (
                        Stage::AwaitingTxVerification { block, point, txs },
                        VerifyAction::VerifyTransactions {
                            txs: handed,
                            current_chain_height: context.chain_height,
                            time_for_time_lock: context.time_for_time_lock,
                            hf: context.current_hf,
                            re_org_token: context.re_org_token,
                        },
                    )
                },
                VerifyEvent::Transactions(Err(missing)) => (
                    Stage::Finished,
                    VerifyAction::Finish(Err(ExtendedConsensusError::TxPErr(missing))),
                ),
                _ => unreached(),
            },
            Stage::AwaitingTxVerification { block, point, txs } => match event {
                VerifyEvent::TransactionsVerified(Ok(_)) => {
                    match sum_block_weight(block.miner_tx_weight, &txs) {
                        None => (
                            Stage::Finished,
                            VerifyAction::Finish(
                                Err(ExtendedConsensusError::Overflow(Unrepresentable::BlockWeight)),
                            ),
                        ),
                        Some(weight) => match sum_fees(&txs) {
                            None => (
                                Stage::Finished,
                                VerifyAction::Finish(
                                    Err(ExtendedConsensusError::Overflow(Unrepresentable::TotalFees)),
                                ),
                            ),
                            Some(fees) => (
                                Stage::AwaitingBlockRules { block, point, txs, weight },
                                VerifyAction::CheckBlockRules { total_fees: fees, block_weight: weight },
                            ),
                        },
                    }
                },
                VerifyEvent::TransactionsVerified(Err(e)) => (
                    Stage::Finished,
                    VerifyAction::Finish(Err(e)),
                ),
                _ => unreached(),
            },
            Stage::AwaitingBlockRules { block, point, txs, weight } => match event {
                VerifyEvent::BlockRules(Ok((hf_vote, generated_coins))) => (
                    Stage::AwaitingPowHash {
                        block,
                        point,
                        txs,
                        weight,
                        hf_vote,
                        generated_coins,
                    },
                    VerifyAction::ComputePowHash {
                        chain_height: point.chain_height,
                        hf: point.current_hf,
                    },
                ),
                VerifyEvent::BlockRules(Err(r)) => (
                    Stage::Finished,
                    VerifyAction::Finish(Err(ExtendedConsensusError::ConErr(r))),
                ),
                _ => unreached(),
            },
            Stage::AwaitingPowHash {
                block,
                point,
                txs,
                weight,
                hf_vote,
                generated_coins,
            } => match event {
                VerifyEvent::PowHash(Ok(pow_hash)) => (
                    Stage::AwaitingDifficulty {
                        block,
                        point,
                        txs,
                        weight,
                        hf_vote,
                        generated_coins,
                        pow_hash,
                    },
                    VerifyAction::CheckDifficulty { pow_hash, difficulty: point.next_difficulty },
                ),
                VerifyEvent::PowHash(Err(r)) => (
                    Stage::Finished,
                    VerifyAction::Finish(Err(ExtendedConsensusError::ConErr(r))),
                ),
                _ => unreached(),
            },
            Stage::AwaitingDifficulty {
                block,
                point,
                txs,
                weight,
                hf_vote,
                generated_coins,
                pow_hash,
            } => match event {
                VerifyEvent::Difficulty(Ok(_)) => {
                    match point.cumulative_difficulty.checked_add(point.next_difficulty) {
                        None => (
                            Stage::Finished,
                            VerifyAction::Finish(
                                Err(
                                    ExtendedConsensusError::Overflow(
                                        Unrepresentable::CumulativeDifficulty,
                                    ),
                                ),
                            ),
                        ),
                        Some(cumulative_difficulty) => (
                            Stage::AwaitingLongTermWeight {
                                block,
                                point,
                                txs,
                                weight,
                                hf_vote,
                                generated_coins,
                                pow_hash,
                                cumulative_difficulty,
                            },
                            VerifyAction::LongTermWeight { block_weight: weight },
                        ),
                    }
                },
                VerifyEvent::Difficulty(Err(r)) => (
                    Stage::Finished,
                    VerifyAction::Finish(Err(ExtendedConsensusError::ConErr(r))),
                ),
                _ => unreached(),
            },
            Stage::AwaitingLongTermWeight {
                block,
                point,
                txs,
                weight,
                hf_vote,
                generated_coins,
                pow_hash,
                cumulative_difficulty,
            } => match event {
                VerifyEvent::LongTermWeight(long_term_weight) => {
                    let block_hash = block.block_hash;
                    (
                        Stage::Finished,
                        VerifyAction::Finish(
                            Ok(
                                VerifyBlockResponse::MainChain(
                                    VerifiedBlockInformation {
                                        block,
                                        hf_vote,
                                        txs,
                                        block_hash,
                                        pow_hash,
                                        height: point.chain_height,
                                        generated_coins,
                                        weight,
                                        long_term_weight,
                                        cumulative_difficulty,
                                    },
                                ),
                            ),
                        ),
                    )
                },
                _ => unreached(),
            },
            Stage::Finished => unreached(),
        };
        (BlockVerification { stage }, action)
    }
}

} // verus!
