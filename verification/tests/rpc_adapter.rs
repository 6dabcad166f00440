use std::task::Context;

use consensus::pow::BlockPOWInfo;
use consensus::rpc::{
    complete, get_blocks_pow_info, ready_step, reply_answers, u128_from_low_high, DatabaseRequest,
    DatabaseResponse, ErrorSlot, Phase, ReadyAction, ReadyEvent, Readiness, RemoteCall,
    RemoteReply, Rpc, RpcError,
};
use consensus::types::{BlockHeader, BlockID};
use futures::lock::OwnedMutexGuard;
use futures::task::noop_waker;

type Transport = String;
type Connection = Vec<&'static str>;

fn header() -> BlockHeader {
    BlockHeader { major_version: 16, minor_version: 16, timestamp: 1_700_000_000, previous: [7; 32], nonce: 42 }
}

fn poll(handle: &mut Rpc<Connection>, slot: &ErrorSlot<Transport>) -> Readiness<Transport> {
    let waker = noop_waker();
    let mut cx = Context::from_waker(&waker);
    handle.poll_ready(slot, &mut cx)
}

fn place(handle: &mut Rpc<Connection>, req: DatabaseRequest) -> (OwnedMutexGuard<Connection>, RemoteCall) {
    assert_eq!(handle.phase(), Phase::Acquired);
    let (permit, plan) = handle.call::<Transport>(req);
    (permit, plan.expect("the request has a remote call"))
}

/// A permit to end calls with, from a connection of its own.
fn spare_permit() -> OwnedMutexGuard<Connection> {
    let mut handle = Rpc::new(Vec::new());
    assert_eq!(poll(&mut handle, &ErrorSlot::new()), Readiness::Ready);
    place(&mut handle, DatabaseRequest::ChainHeight).0
}

#[test]
fn halves_are_joined() {
    assert_eq!(u128_from_low_high(0xFFFF_FFFF_FFFF_FFFF, 1), (1u128 << 64) + 0xFFFF_FFFF_FFFF_FFFF);
}

#[test]
fn halves_at_the_edges() {
    assert_eq!(u128_from_low_high(0, 0), 0);
    assert_eq!(u128_from_low_high(5, 0), 5);
    assert_eq!(u128_from_low_high(0, 1), 1u128 << 64);
    assert_eq!(u128_from_low_high(1, 2), (2u128 << 64) + 1);
    assert_eq!(u128_from_low_high(u64::MAX, u64::MAX), u128::MAX);
}

#[test]
fn halves_are_not_swapped() {
    assert_eq!(u128_from_low_high(3, 4), 4 * (1u128 << 64) + 3);
    assert_ne!(u128_from_low_high(3, 4), u128_from_low_high(4, 3));
}

#[test]
fn pow_info_of_a_header_record() {
    assert_eq!(
        get_blocks_pow_info(0xFFFF_FFFF_FFFF_FFFF, 1, 1_600_000_000),
        BlockPOWInfo { timestamp: 1_600_000_000, cumulative_difficulty: (1u128 << 64) + 0xFFFF_FFFF_FFFF_FFFF }
    );
    assert_eq!(get_blocks_pow_info(12, 0, 3), BlockPOWInfo { timestamp: 3, cumulative_difficulty: 12 });
}

#[test]
fn steps_of_a_handle_that_becomes_ready() {
    let slot: ErrorSlot<Transport> = ErrorSlot::new();
    assert_eq!(ready_step(Phase::Locked, &slot, ReadyEvent::Polled), (Phase::Acquiring, ReadyAction::Acquire));
    assert_eq!(ready_step(Phase::Acquiring, &slot, ReadyEvent::PermitPending), (Phase::Acquiring, ReadyAction::Pending));
    assert_eq!(ready_step(Phase::Acquiring, &slot, ReadyEvent::Polled), (Phase::Acquiring, ReadyAction::PollPermit));
    assert_eq!(ready_step(Phase::Acquiring, &slot, ReadyEvent::PermitGranted), (Phase::Acquired, ReadyAction::Ready));
    assert_eq!(ready_step(Phase::Acquired, &slot, ReadyEvent::Polled), (Phase::Acquired, ReadyAction::Ready));
}

#[test]
fn steps_fail_on_a_poisoned_slot() {
    let mut slot: ErrorSlot<Transport> = ErrorSlot::new();
    slot.record(String::from("connection reset"));
    for state in [Phase::Locked, Phase::Acquiring, Phase::Acquired] {
        assert_eq!(
            ready_step(state, &slot, ReadyEvent::Polled),
            (state, ReadyAction::Fail(String::from("connection reset")))
        );
    }
}

#[test]
fn fresh_handle_holds_nothing() {
    let handle: Rpc<Connection> = Rpc::new(vec!["node"]);
    assert_eq!(handle.phase(), Phase::Locked);
}

#[test]
fn handle_acquires_then_calls_then_holds_nothing() {
    let mut slot: ErrorSlot<Transport> = ErrorSlot::new();
    let mut handle = Rpc::new(vec!["node"]);
    assert_eq!(poll(&mut handle, &slot), Readiness::Ready);
    assert_eq!(handle.phase(), Phase::Acquired);
    assert_eq!(poll(&mut handle, &slot), Readiness::Ready);
    assert_eq!(handle.phase(), Phase::Acquired);
    let (permit, call) = place(&mut handle, DatabaseRequest::ChainHeight);
    assert_eq!(call, RemoteCall::GetHeight);
    assert_eq!(*permit, vec!["node"]);
    assert_eq!(handle.phase(), Phase::Locked);
    assert_eq!(
        complete(permit, DatabaseRequest::ChainHeight, Ok(RemoteReply::Height(10)), &mut slot),
        Ok(DatabaseResponse::ChainHeight(10))
    );
    assert_eq!(poll(&mut handle, &slot), Readiness::Ready);
}

#[test]
fn permit_is_held_for_the_whole_call() {
    let mut slot: ErrorSlot<Transport> = ErrorSlot::new();
    let mut handle = Rpc::new(vec!["node"]);
    let mut other = handle.clone();
    assert_eq!(poll(&mut handle, &slot), Readiness::Ready);
    let (permit, _) = place(&mut handle, DatabaseRequest::ChainHeight);
    assert_eq!(poll(&mut handle, &slot), Readiness::Pending);
    assert_eq!(handle.phase(), Phase::Acquiring);
    assert_eq!(poll(&mut other, &slot), Readiness::Pending);
    assert_eq!(poll(&mut other, &slot), Readiness::Pending);
    assert_eq!(other.phase(), Phase::Acquiring);
    let done = complete(permit, DatabaseRequest::ChainHeight, Ok(RemoteReply::Height(1)), &mut slot);
    assert_eq!(done, Ok(DatabaseResponse::ChainHeight(1)));
    assert_eq!(poll(&mut other, &slot), Readiness::Ready);
    assert_eq!(other.phase(), Phase::Acquired);
    assert_eq!(poll(&mut handle, &slot), Readiness::Pending);
}

#[test]
fn clone_starts_with_nothing_on_the_same_connection() {
    let slot: ErrorSlot<Transport> = ErrorSlot::new();
    let mut handle = Rpc::new(vec!["node"]);
    assert_eq!(poll(&mut handle, &slot), Readiness::Ready);
    let mut other = handle.clone();
    assert_eq!(other.phase(), Phase::Locked);
    assert_eq!(poll(&mut other, &slot), Readiness::Pending);
    assert_eq!(handle.phase(), Phase::Acquired);
    let (mut permit, _) = place(&mut handle, DatabaseRequest::ChainHeight);
    permit.push("seen by the first handle");
    let mut slot = slot;
    let _ = complete(permit, DatabaseRequest::ChainHeight, Ok(RemoteReply::Height(1)), &mut slot);
    assert_eq!(poll(&mut other, &slot), Readiness::Ready);
    let (permit, _) = place(&mut other, DatabaseRequest::ChainHeight);
    assert_eq!(*permit, vec!["node", "seen by the first handle"]);
}

#[test]
fn at_most_one_call_is_in_flight() {
    let mut slot: ErrorSlot<Transport> = ErrorSlot::new();
    let first = Rpc::new(vec!["node"]);
    let mut handles = vec![first.clone(), first.clone(), first.clone(), first.clone(), first];
    let mut in_flight: Vec<OwnedMutexGuard<Connection>> = Vec::new();
    let mut placed = 0;
    for round in 0..40 {
        for turn in 0..handles.len() {
            if poll(&mut handles[turn], &slot) == Readiness::Ready {
                let holding = handles.iter().filter(|h| h.phase() == Phase::Acquired).count();
                assert_eq!(holding, 1);
                assert!(in_flight.is_empty());
                let (permit, _) = place(&mut handles[turn], DatabaseRequest::ChainHeight);
                in_flight.push(permit);
                placed += 1;
            }
            let holding = handles.iter().filter(|h| h.phase() == Phase::Acquired).count();
            assert!(holding + in_flight.len() <= 1);
        }
        if round % 3 == 2 {
            let permit = in_flight.pop().expect("a call is in flight");
            let done = complete(permit, DatabaseRequest::ChainHeight, Ok(RemoteReply::Height(round)), &mut slot);
            assert_eq!(done, Ok(DatabaseResponse::ChainHeight(round as u64)));
        }
    }
    assert_eq!(placed, 14);
}

#[test]
fn each_request_has_its_remote_call() {
    let mut slot: ErrorSlot<Transport> = ErrorSlot::new();
    let cases = vec![
        (DatabaseRequest::ChainHeight, RemoteCall::GetHeight, RemoteReply::Height(1)),
        (DatabaseRequest::BlockHeader(BlockID::Hash([5; 32])), RemoteCall::GetBlock([5; 32]), RemoteReply::Block(header())),
        (DatabaseRequest::BlockHeader(BlockID::Height(1234)), RemoteCall::GetBlockByNumber(1234), RemoteReply::Block(header())),
        (
            DatabaseRequest::BlockPOWInfo(BlockID::Hash([6; 32])),
            RemoteCall::GetBlockHeaderByHash([6; 32]),
            RemoteReply::HeaderRecord { cumulative_difficulty: 1, cumulative_difficulty_top64: 0, timestamp: 2 },
        ),
        (
            DatabaseRequest::BlockPOWInfo(BlockID::Height(99)),
            RemoteCall::GetBlockHeaderByHeight(99),
            RemoteReply::HeaderRecord { cumulative_difficulty: 1, cumulative_difficulty_top64: 0, timestamp: 2 },
        ),
    ];
    let mut handle = Rpc::new(vec!["node"]);
    for (request, call, reply) in cases {
        assert_eq!(poll(&mut handle, &slot), Readiness::Ready);
        let (permit, plan) = handle.call::<Transport>(request);
        assert_eq!(plan, Ok(call));
        assert_eq!(handle.phase(), Phase::Locked);
        assert!(reply_answers(request, reply));
        assert!(complete(permit, request, Ok(reply), &mut slot).is_ok());
    }
}

#[test]
fn block_number_is_the_height_itself() {
    let slot: ErrorSlot<Transport> = ErrorSlot::new();
    let mut handle = Rpc::new(vec!["node"]);
    assert_eq!(poll(&mut handle, &slot), Readiness::Ready);
    let height = usize::MAX as u64;
    let (_, plan) = handle.call::<Transport>(DatabaseRequest::BlockHeader(BlockID::Height(height)));
    assert_eq!(plan, Ok(RemoteCall::GetBlockByNumber(usize::MAX)));
}

#[test]
fn height_that_does_not_fit_a_block_number_fails() {
    let slot: ErrorSlot<Transport> = ErrorSlot::new();
    let mut handle = Rpc::new(vec!["node"]);
    assert_eq!(poll(&mut handle, &slot), Readiness::Ready);
    let (permit, plan) = handle.call::<Transport>(DatabaseRequest::BlockHeader(BlockID::Height(u64::MAX)));
    if (usize::MAX as u128) < (u64::MAX as u128) {
        assert_eq!(plan, Err(RpcError::HeightOutOfRange));
    } else {
        assert_eq!(plan, Ok(RemoteCall::GetBlockByNumber(usize::MAX)));
    }
    assert_eq!(handle.phase(), Phase::Locked);
    drop(permit);
    assert_eq!(poll(&mut handle, &slot), Readiness::Ready);
}

#[test]
fn height_for_pow_info_is_passed_whole() {
    let slot: ErrorSlot<Transport> = ErrorSlot::new();
    let mut handle = Rpc::new(vec!["node"]);
    assert_eq!(poll(&mut handle, &slot), Readiness::Ready);
    let (_, plan) = handle.call::<Transport>(DatabaseRequest::BlockPOWInfo(BlockID::Height(u64::MAX)));
    assert_eq!(plan, Ok(RemoteCall::GetBlockHeaderByHeight(u64::MAX)));
}

#[test]
fn chain_height_is_not_cut_short() {
    let mut slot: ErrorSlot<Transport> = ErrorSlot::new();
    assert_eq!(
        complete(spare_permit(), DatabaseRequest::ChainHeight, Ok(RemoteReply::Height(usize::MAX)), &mut slot),
        Ok(DatabaseResponse::ChainHeight(usize::MAX as u64))
    );
    assert_eq!(
        complete(spare_permit(), DatabaseRequest::ChainHeight, Ok(RemoteReply::Height(3_000_000)), &mut slot),
        Ok(DatabaseResponse::ChainHeight(3_000_000))
    );
    assert_eq!(
        complete(spare_permit(), DatabaseRequest::ChainHeight, Ok(RemoteReply::Height(0)), &mut slot),
        Ok(DatabaseResponse::ChainHeight(0))
    );
    assert!(!slot.is_poisoned());
}

#[test]
fn block_reply_becomes_its_header() {
    let mut slot: ErrorSlot<Transport> = ErrorSlot::new();
    assert_eq!(
        complete(spare_permit(), DatabaseRequest::BlockHeader(BlockID::Height(7)), Ok(RemoteReply::Block(header())), &mut slot),
        Ok(DatabaseResponse::BlockHeader(header()))
    );
    assert_eq!(
        complete(spare_permit(), DatabaseRequest::BlockHeader(BlockID::Hash([1; 32])), Ok(RemoteReply::Block(header())), &mut slot),
        Ok(DatabaseResponse::BlockHeader(header()))
    );
}

#[test]
fn header_record_becomes_pow_info() {
    let mut slot: ErrorSlot<Transport> = ErrorSlot::new();
    let record = RemoteReply::HeaderRecord {
        cumulative_difficulty: 0xFFFF_FFFF_FFFF_FFFF,
        cumulative_difficulty_top64: 1,
        timestamp: 1_600_000_000,
    };
    assert_eq!(
        complete(spare_permit(), DatabaseRequest::BlockPOWInfo(BlockID::Height(7)), Ok(record), &mut slot),
        Ok(DatabaseResponse::BlockPOWInfo(BlockPOWInfo {
            timestamp: 1_600_000_000,
            cumulative_difficulty: (1u128 << 64) + 0xFFFF_FFFF_FFFF_FFFF,
        }))
    );
    assert_eq!(
        complete(spare_permit(), DatabaseRequest::BlockPOWInfo(BlockID::Hash([2; 32])), Ok(record), &mut slot),
        Ok(DatabaseResponse::BlockPOWInfo(BlockPOWInfo {
            timestamp: 1_600_000_000,
            cumulative_difficulty: 36_893_488_147_419_103_231,
        }))
    );
    assert_eq!(slot.stored(), &None);
}

#[test]
fn replies_are_matched_to_requests() {
    let height = RemoteReply::Height(1);
    let block = RemoteReply::Block(header());
    let record = RemoteReply::HeaderRecord { cumulative_difficulty: 1, cumulative_difficulty_top64: 0, timestamp: 2 };
    assert!(reply_answers(DatabaseRequest::ChainHeight, height));
    assert!(!reply_answers(DatabaseRequest::ChainHeight, block));
    assert!(!reply_answers(DatabaseRequest::ChainHeight, record));
    assert!(reply_answers(DatabaseRequest::BlockHeader(BlockID::Height(1)), block));
    assert!(reply_answers(DatabaseRequest::BlockHeader(BlockID::Hash([0; 32])), block));
    assert!(!reply_answers(DatabaseRequest::BlockHeader(BlockID::Height(1)), height));
    assert!(!reply_answers(DatabaseRequest::BlockHeader(BlockID::Height(1)), record));
    assert!(reply_answers(DatabaseRequest::BlockPOWInfo(BlockID::Height(1)), record));
    assert!(reply_answers(DatabaseRequest::BlockPOWInfo(BlockID::Hash([0; 32])), record));
    assert!(!reply_answers(DatabaseRequest::BlockPOWInfo(BlockID::Height(1)), height));
    assert!(!reply_answers(DatabaseRequest::BlockPOWInfo(BlockID::Height(1)), block));
}

#[test]
fn transport_failure_is_recorded_and_handed_on() {
    let mut slot: ErrorSlot<Transport> = ErrorSlot::new();
    assert!(!slot.is_poisoned());
    let result = complete(spare_permit(), DatabaseRequest::ChainHeight, Err(String::from("connection reset")), &mut slot);
    assert_eq!(result, Err(RpcError::Transport(String::from("connection reset"))));
    assert!(slot.is_poisoned());
    assert_eq!(slot.stored(), &Some(String::from("connection reset")));
}

#[test]
fn transport_failure_is_recorded_for_every_request() {
    let requests = vec![
        DatabaseRequest::ChainHeight,
        DatabaseRequest::BlockHeader(BlockID::Hash([5; 32])),
        DatabaseRequest::BlockHeader(BlockID::Height(1234)),
        DatabaseRequest::BlockPOWInfo(BlockID::Hash([6; 32])),
        DatabaseRequest::BlockPOWInfo(BlockID::Height(99)),
    ];
    for request in requests {
        let mut slot: ErrorSlot<Transport> = ErrorSlot::new();
        let result = complete(spare_permit(), request, Err(String::from("timed out")), &mut slot);
        assert_eq!(result, Err(RpcError::Transport(String::from("timed out"))));
        assert_eq!(slot.stored(), &Some(String::from("timed out")));
    }
}

#[test]
fn a_failed_call_gives_the_permit_back() {
    let mut slot: ErrorSlot<Transport> = ErrorSlot::new();
    let mut handle = Rpc::new(vec!["node"]);
    let mut other = handle.clone();
    assert_eq!(poll(&mut handle, &slot), Readiness::Ready);
    let (permit, _) = place(&mut handle, DatabaseRequest::ChainHeight);
    assert_eq!(poll(&mut other, &slot), Readiness::Pending);
    let _ = complete(permit, DatabaseRequest::ChainHeight, Err(String::from("timed out")), &mut slot);
    let fresh: ErrorSlot<Transport> = ErrorSlot::new();
    assert_eq!(poll(&mut other, &fresh), Readiness::Ready);
}

#[test]
fn failure_sticks_for_every_handle() {
    let mut slot: ErrorSlot<Transport> = ErrorSlot::new();
    let mut first = Rpc::new(vec!["node"]);
    let mut waiting = first.clone();
    assert_eq!(poll(&mut first, &slot), Readiness::Ready);
    assert_eq!(poll(&mut waiting, &slot), Readiness::Pending);

    let (permit, call) = place(&mut first, DatabaseRequest::ChainHeight);
    assert_eq!(call, RemoteCall::GetHeight);
    let result = complete(permit, DatabaseRequest::ChainHeight, Err(String::from("connection reset")), &mut slot);
    assert_eq!(result, Err(RpcError::Transport(String::from("connection reset"))));

    let failed = || Readiness::Failed(String::from("connection reset"));
    assert_eq!(poll(&mut first, &slot), failed());
    assert_eq!(first.phase(), Phase::Locked);
    assert_eq!(poll(&mut waiting, &slot), failed());
    assert_eq!(waiting.phase(), Phase::Acquiring);
    let mut late = first.clone();
    assert_eq!(poll(&mut late, &slot), failed());
    assert_eq!(late.phase(), Phase::Locked);
    assert_eq!(poll(&mut late, &slot), failed());
}

#[test]
fn a_handle_that_holds_the_permit_fails_too() {
    let mut slot: ErrorSlot<Transport> = ErrorSlot::new();
    let mut holder = Rpc::new(vec!["node"]);
    assert_eq!(poll(&mut holder, &slot), Readiness::Ready);
    slot.record(String::from("connection reset"));
    assert_eq!(poll(&mut holder, &slot), Readiness::Failed(String::from("connection reset")));
    assert_eq!(holder.phase(), Phase::Acquired);
}

#[test]
fn slot_keeps_the_first_failure() {
    let mut slot: ErrorSlot<Transport> = ErrorSlot::new();
    slot.record(String::from("first"));
    slot.record(String::from("second"));
    assert_eq!(slot.stored(), &Some(String::from("first")));
    let result = complete(spare_permit(), DatabaseRequest::ChainHeight, Err(String::from("third")), &mut slot);
    assert_eq!(result, Err(RpcError::Transport(String::from("third"))));
    assert_eq!(slot.stored(), &Some(String::from("first")));
    let result = complete(spare_permit(), DatabaseRequest::ChainHeight, Ok(RemoteReply::Height(4)), &mut slot);
    assert_eq!(result, Ok(DatabaseResponse::ChainHeight(4)));
    assert_eq!(slot.stored(), &Some(String::from("first")));
    assert!(slot.is_poisoned());
}

#[test]
fn a_reply_leaves_the_slot_empty() {
    let mut slot: ErrorSlot<Transport> = ErrorSlot::new();
    let result = complete(spare_permit(), DatabaseRequest::BlockHeader(BlockID::Height(1)), Ok(RemoteReply::Block(header())), &mut slot);
    assert!(result.is_ok());
    assert!(!slot.is_poisoned());
    let mut handle = Rpc::new(vec!["node"]);
    assert_eq!(poll(&mut handle, &slot), Readiness::Ready);
}
