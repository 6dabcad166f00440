//! Whole runs of a block verification, and what holds of every one of them.
//!
//! A run is the sequence of reports that a driver makes, from the request on.
//! [`run`] folds [`Stage::next`] over it.

use vstd::prelude::*;
use crate::block::{
    Stage, VerifiedBlockInformation, VerifyAction, VerifyBlockRequest, VerifyBlockResponse,
    VerifyEvent,
};
use crate::context::ContextSnapshot;
use crate::error::{ExtendedConsensusError, FailureClass, TxNotInPool};
use crate::transactions::{block_weight, total_fees, total_weight, TransactionVerificationData};
use crate::types::{Block, HardFork};

verus! {

/// The stage that is reached from `start` when `events` are reported in turn.
pub open spec fn run<T, R, E>(
    start: Stage<T>,
    events: Seq<VerifyEvent<T, R, E>>,
) -> Stage<T>
    decreases events.len(),
{
    if events.len() == 0 {
        start
    } else {
        run(start, events.drop_last()).next(events.last())
    }
}

/// Whether each of `events` is the report that the stage it meets waits for.
pub open spec fn admissible<T, R, E>(
    start: Stage<T>,
    events: Seq<VerifyEvent<T, R, E>>,
) -> bool
    decreases events.len(),
{
    events.len() == 0 || (admissible(start, events.drop_last()) && run(
        start,
        events.drop_last(),
    ).expects(events.last()))
}

/// The number of checks that lie behind a stage.
pub open spec fn stages_passed<T>(stage: Stage<T>) -> nat {
    match stage {
        Stage::AwaitingContext { .. } => 0,
        Stage::AwaitingTransactions { .. } => 1,
        Stage::AwaitingTxVerification { .. } => 2,
        Stage::AwaitingBlockRules { .. } => 3,
        Stage::AwaitingPowHash { .. } => 4,
        Stage::AwaitingDifficulty { .. } => 5,
        Stage::AwaitingLongTermWeight { .. } => 6,
        Stage::Finished => 7,
    }
}

/// Whether `event` reports that the check with this number passed: the context
/// was read (0), the transactions were resolved (1) and verified (2), the block
/// rules passed (3), the proof-of-work hash was computed (4) and met the
/// difficulty (5).
pub open spec fn passes<T, R, E>(check: int, event: VerifyEvent<T, R, E>) -> bool {
    match event {
        VerifyEvent::Context(Ok(_)) => check == 0,
        VerifyEvent::Transactions(Ok(_)) => check == 1,
        VerifyEvent::TransactionsVerified(Ok(_)) => check == 2,
        VerifyEvent::BlockRules(Ok(_)) => check == 3,
        VerifyEvent::PowHash(Ok(_)) => check == 4,
        VerifyEvent::Difficulty(Ok(_)) => check == 5,
        _ => false,
    }
}

/// The reports of a verification in which nothing fails.
pub open spec fn passing_run<T, R, E>(
    context: ContextSnapshot<T>,
    txs: Vec<TransactionVerificationData>,
    hf_vote: HardFork,
    generated_coins: u64,
    pow_hash: [u8; 32],
    long_term_weight: usize,
) -> Seq<VerifyEvent<T, R, E>> {
    seq![
        VerifyEvent::Context(Ok(context)),
        VerifyEvent::Transactions(Ok(txs)),
        VerifyEvent::TransactionsVerified(Ok(())),
        VerifyEvent::BlockRules(Ok((hf_vote, generated_coins))),
        VerifyEvent::PowHash(Ok(pow_hash)),
        VerifyEvent::Difficulty(Ok(())),
        VerifyEvent::LongTermWeight(long_term_weight),
    ]
}

/// A verification that has ended stays ended: nothing is awaited any more, and
/// no further result comes.
pub proof fn lemma_finished_is_final<T, R, E>(event: VerifyEvent<T, R, E>)
    ensures
        !Stage::<T>::Finished.expects(event),
        Stage::<T>::Finished.verdict(event) is None,
        Stage::<T>::Finished.next(event) is Finished,
{
}

/// The totals that a verification holds are right from its start and stay
/// right with every report, and a record states them: the weight of its block,
/// and the cumulative difficulty of the chain point with the difficulty of the
/// block added, which is formed only once the proof of work has been accepted.
pub proof fn lemma_totals_stay_right<T, R, E>(
    req: VerifyBlockRequest,
    stage: Stage<T>,
    event: VerifyEvent<T, R, E>,
)
    requires
        stage.well_formed(),
        stage.expects(event),
    ensures
        Stage::<T>::initial(req).well_formed(),
        stage.next(event).well_formed(),
        stage.verdict(event) matches Some(Ok(VerifyBlockResponse::MainChain(record))) ==> {
            &&& record.weight == block_weight(record.block.miner_tx_weight, record.txs@)
            &&& stage matches Stage::AwaitingLongTermWeight { point, .. }
            &&& record.cumulative_difficulty == point.cumulative_difficulty + point.next_difficulty
            &&& record.height == point.chain_height
        },
{
}

/// Every report either moves the verification on by exactly one stage or ends
/// it, and it ends it exactly when it yields a result.
pub proof fn lemma_one_stage_at_a_time<T, R, E>(
    stage: Stage<T>,
    event: VerifyEvent<T, R, E>,
)
    requires
        stage.expects(event),
    ensures
        stage.next(event) is Finished <==> stage.verdict(event) is Some,
        !(stage.next(event) is Finished) ==> {
            &&& stages_passed(stage.next(event)) == stages_passed(stage) + 1
            &&& passes(stages_passed(stage) as int, event)
        },
{
}

/// As long as a run has not ended, every report in it was a passed check, in
/// the one order in which the checks are made.
pub proof fn lemma_unfinished_run_passed_every_check<T, R, E>(
    req: VerifyBlockRequest,
    events: Seq<VerifyEvent<T, R, E>>,
)
    requires
        admissible(Stage::<T>::initial(req), events),
        !(run(Stage::<T>::initial(req), events) is Finished),
    ensures
        stages_passed(run(Stage::<T>::initial(req), events)) == events.len(),
        forall|i: int| 0 <= i < events.len() ==> passes(i, #[trigger] events[i]),
    decreases events.len(),
{
    let start = Stage::<T>::initial(req);
    if events.len() > 0 {
        let before = run(start, events.drop_last());
        lemma_finished_is_final::<T, R, E>(events.last());
        lemma_unfinished_run_passed_every_check::<T, R, E>(req, events.drop_last());
        lemma_one_stage_at_a_time(before, events.last());
        assert forall|i: int| 0 <= i < events.len() implies passes(i, #[trigger] events[i]) by {
            if i < events.len() - 1 {
                assert(events[i] == events.drop_last()[i]);
            }
        }
    }
}

/// The proof of work is asked for only after the block rules have passed, and
/// they are asked about only after the transactions were resolved and verified
/// against a context.
pub proof fn lemma_pow_hash_is_asked_for_last<T, R, E>(
    req: VerifyBlockRequest,
    events: Seq<VerifyEvent<T, R, E>>,
    action: VerifyAction<T, R, E>,
)
    requires
        events.len() > 0,
        admissible(Stage::<T>::initial(req), events),
        run(Stage::<T>::initial(req), events.drop_last()).requests(events.last(), action),
        action is ComputePowHash,
    ensures
        events.len() == 4,
        events[0] is Context && events[0]->Context_0 is Ok,
        events[1] is Transactions && events[1]->Transactions_0 is Ok,
        events[2] is TransactionsVerified && events[2]->TransactionsVerified_0 is Ok,
        events[3] is BlockRules && events[3]->BlockRules_0 is Ok,
{
    lemma_finished_is_final::<T, R, E>(events.last());
    lemma_unfinished_run_passed_every_check::<T, R, E>(req, events.drop_last());
    assert forall|i: int| 0 <= i < 3 implies passes(i, #[trigger] events[i]) by {
        assert(events[i] == events.drop_last()[i]);
    }
}

/// A block fails on its difficulty only after every cheaper check has passed:
/// when the report that ends a run is a proof-of-work hash that does not meet
/// the difficulty, then the context was read, the transactions were resolved and
/// verified, the totals of weight and fees were formed, the block rules passed
/// and the hash was computed, in this order, and the run fails with what the
/// difficulty check reported.
pub proof fn lemma_difficulty_fails_last<T, R, E>(
    req: VerifyBlockRequest,
    events: Seq<VerifyEvent<T, R, E>>,
    rejection: R,
)
    requires
        events.len() > 0,
        admissible(Stage::<T>::initial(req), events),
        events.last() == VerifyEvent::<T, R, E>::Difficulty(Err(rejection)),
    ensures
        events.len() == 6,
        forall|i: int| 0 <= i < 5 ==> passes(i, #[trigger] events[i]),
        run(Stage::<T>::initial(req), events.drop_last()).verdict(events.last()) == Some(
            Err::<VerifyBlockResponse, _>(ExtendedConsensusError::<R, E>::ConErr(rejection)),
        ),
        run(Stage::<T>::initial(req), events) is Finished,
{
    lemma_finished_is_final::<T, R, E>(events.last());
    lemma_unfinished_run_passed_every_check::<T, R, E>(req, events.drop_last());
    assert forall|i: int| 0 <= i < 5 implies passes(i, #[trigger] events[i]) by {
        assert(events[i] == events.drop_last()[i]);
    }
}

/// A record is produced by the last report only: a run that yields a record has
/// passed every check, and the record states the totals that were formed and the
/// context that was read.
pub proof fn lemma_record_needs_every_check<T, R, E>(
    req: VerifyBlockRequest,
    events: Seq<VerifyEvent<T, R, E>>,
    record: VerifiedBlockInformation,
)
    requires
        events.len() > 0,
        admissible(Stage::<T>::initial(req), events),
        run(Stage::<T>::initial(req), events.drop_last()).verdict(events.last()) == Some(
            Ok::<_, ExtendedConsensusError<R, E>>(VerifyBlockResponse::MainChain(record)),
        ),
    ensures
        events.len() == 7,
        forall|i: int| 0 <= i < 6 ==> passes(i, #[trigger] events[i]),
        events[6] is LongTermWeight,
{
    lemma_finished_is_final::<T, R, E>(events.last());
    lemma_unfinished_run_passed_every_check::<T, R, E>(req, events.drop_last());
    assert forall|i: int| 0 <= i < 6 implies passes(i, #[trigger] events[i]) by {
        assert(events[i] == events.drop_last()[i]);
    }
}

/// A block whose transactions are all in the pool and pass, whose totals of
/// weight and fees can be represented, which passes the block rules and whose
/// proof-of-work hash meets the difficulty, is verified against a context whose
/// difficulties add up in 128 bits. Its record carries the block and its
/// transactions, the weight of the miner transaction plus the weights of the
/// transactions, and the cumulative difficulty of the context plus the
/// difficulty of the block.
pub proof fn lemma_valid_block_is_verified<T, R, E>(
    block: Block,
    context: ContextSnapshot<T>,
    txs: Vec<TransactionVerificationData>,
    hf_vote: HardFork,
    generated_coins: u64,
    pow_hash: [u8; 32],
    long_term_weight: usize,
)
    requires
        block_weight(block.miner_tx_weight, txs@) <= usize::MAX,
        total_fees(txs@) <= u64::MAX,
        context.point().consistent(),
    ensures
        ({
            let start = Stage::<T>::initial(VerifyBlockRequest::MainChain(block));
            let events = passing_run::<T, R, E>(
                context,
                txs,
                hf_vote,
                generated_coins,
                pow_hash,
                long_term_weight,
            );
            &&& admissible(start, events)
            &&& run(start, events) is Finished
            &&& run(start, events.drop_last()).verdict(events.last()) matches Some(
                Ok(VerifyBlockResponse::MainChain(record)),
            )
            &&& record.weight == block.miner_tx_weight + total_weight(txs@)
            &&& record.cumulative_difficulty == context.cumulative_difficulty
                + context.next_difficulty
            &&& record.block == block
            &&& record.txs == txs
            &&& record.block_hash == block.block_hash
            &&& record.pow_hash == pow_hash
            &&& record.height == context.chain_height
            &&& record.hf_vote == hf_vote
            &&& record.generated_coins == generated_coins
            &&& record.long_term_weight == long_term_weight
        }),
{
    let start = Stage::<T>::initial(VerifyBlockRequest::MainChain(block));
    let events = passing_run::<T, R, E>(
        context,
        txs,
        hf_vote,
        generated_coins,
        pow_hash,
        long_term_weight,
    );
    let e0 = events.take(0);
    let e1 = events.take(1);
    let e2 = events.take(2);
    let e3 = events.take(3);
    let e4 = events.take(4);
    let e5 = events.take(5);
    let e6 = events.take(6);
    assert(e1.drop_last() =~= e0);
    assert(e2.drop_last() =~= e1);
    assert(e3.drop_last() =~= e2);
    assert(e4.drop_last() =~= e3);
    assert(e5.drop_last() =~= e4);
    assert(e6.drop_last() =~= e5);
    assert(events.drop_last() =~= e6);
    assert(run(start, e0) == start);
    assert(admissible(start, e0));
    assert(run(start, e1) is AwaitingTransactions && admissible(start, e1));
    assert(run(start, e2) is AwaitingTxVerification && admissible(start, e2));
    assert(run(start, e3) is AwaitingBlockRules && admissible(start, e3));
    assert(run(start, e4) is AwaitingPowHash && admissible(start, e4));
    assert(run(start, e5) is AwaitingDifficulty && admissible(start, e5));
    assert(run(start, e6) is AwaitingLongTermWeight && admissible(start, e6));
}

/// A block that refers to a transaction which the pool does not have fails
/// with the missing-data failure at once: the verification has ended, nothing
/// more is awaited, and no record comes of it.
pub proof fn lemma_missing_transaction_fails<T, R, E>(
    block: Block,
    context: ContextSnapshot<T>,
    missing: TxNotInPool,
)
    ensures
        ({
            let start = Stage::<T>::initial(VerifyBlockRequest::MainChain(block));
            let events = seq![
                VerifyEvent::<T, R, E>::Context(Ok(context)),
                VerifyEvent::<T, R, E>::Transactions(Err(missing)),
            ];
            &&& admissible(start, events)
            &&& run(start, events) is Finished
            &&& run(start, events.drop_last()).verdict(events.last()) == Some(
                Err::<VerifyBlockResponse, _>(ExtendedConsensusError::<R, E>::TxPErr(missing)),
            )
            &&& ExtendedConsensusError::<R, E>::TxPErr(missing).class_spec()
                == FailureClass::MissingData
        }),
{
    let start = Stage::<T>::initial(VerifyBlockRequest::MainChain(block));
    let events = seq![
        VerifyEvent::<T, R, E>::Context(Ok(context)),
        VerifyEvent::<T, R, E>::Transactions(Err(missing)),
    ];
    let e0 = events.take(0);
    let e1 = events.take(1);
    assert(e1.drop_last() =~= e0);
    assert(events.drop_last() =~= e1);
    assert(run(start, e0) == start);
    assert(admissible(start, e0));
    assert(run(start, e1) is AwaitingTransactions && admissible(start, e1));
}

} // verus!
