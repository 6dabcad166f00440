//! Shared access to one connection to a remote node.
//!
//! Any number of handles share the connection and an [`ErrorSlot`]. A handle
//! places a call only while it holds the connection's permit: it claims the
//! permit when its readiness is polled, takes it along with the call, and gives
//! it back when the call ends. The first transport failure is written to the
//! slot, and from then on the readiness of every handle fails with it.
//!
//! What a handle decides is written twice over. [`ready_step`] takes what the
//! lock answered as an argument and is exact. [`Rpc::poll_ready`] asks the lock
//! itself and states what holds whichever answer came.

use std::sync::Arc;
use std::task::Context;
use futures::lock::{Mutex, OwnedMutexGuard, OwnedMutexLockFuture};
use vstd::prelude::*;
use crate::lock::{claim_permit, guard_connection, poll_claim, share_connection};
use crate::pow::BlockPOWInfo;
use crate::types::{BlockHeader, BlockID};

verus! {

/// The value of a 128-bit quantity that arrives as two 64-bit halves.
pub open spec fn combined_halves(low: u64, high: u64) -> int {
    high as int * 0x1_0000_0000_0000_0000 + low as int
}

/// Joins the low and high 64-bit halves of a 128-bit quantity.
pub fn u128_from_low_high(low: u64, high: u64) -> (res: u128)
    ensures
        res as int == combined_halves(low, high),
{
    let wide_high: u128 = high as u128;
    let wide_low: u128 = low as u128;
    assert(((wide_high << 64) | wide_low) == wide_high * 0x1_0000_0000_0000_0000 + wide_low)
        by (bit_vector)
        requires
            wide_high <= 0xFFFF_FFFF_FFFF_FFFF,
            wide_low <= 0xFFFF_FFFF_FFFF_FFFF,
    ;
    wide_high << 64 | wide_low
}

/// Nothing is lost when the halves are joined: the result fits in 128 bits, and
/// both halves can be read back from it.
pub proof fn lemma_halves_are_kept(low: u64, high: u64)
    ensures
        0 <= combined_halves(low, high) <= u128::MAX,
        combined_halves(low, high) / 0x1_0000_0000_0000_0000 == high,
        combined_halves(low, high) % 0x1_0000_0000_0000_0000 == low,
{
    let joined = combined_halves(low, high);
    assert(0 <= joined <= u128::MAX) by (nonlinear_arith)
        requires
            joined == high as int * 0x1_0000_0000_0000_0000 + low as int,
            0 <= high <= 0xFFFF_FFFF_FFFF_FFFF,
            0 <= low <= 0xFFFF_FFFF_FFFF_FFFF,
    ;
    assert(joined / 0x1_0000_0000_0000_0000 == high && joined % 0x1_0000_0000_0000_0000 == low)
        by (nonlinear_arith)
        requires
            joined == high as int * 0x1_0000_0000_0000_0000 + low as int,
            0 <= low < 0x1_0000_0000_0000_0000,
    ;
}

/// The proof-of-work facts in a header record of the remote node, whose
/// cumulative difficulty comes as a low and a high half.
pub fn get_blocks_pow_info(
    cumulative_difficulty: u64,
    cumulative_difficulty_top64: u64,
    timestamp: u64,
) -> (info: BlockPOWInfo)
    ensures
        info.timestamp == timestamp,
        info.cumulative_difficulty as int == combined_halves(
            cumulative_difficulty,
            cumulative_difficulty_top64,
        ),
{
    BlockPOWInfo {
        timestamp,
        cumulative_difficulty: u128_from_low_high(cumulative_difficulty, cumulative_difficulty_top64),
    }
}

/// A lookup in the chain that the remote node holds.
#[derive(Clone, Copy, Debug, PartialEq, Eq)]
pub enum DatabaseRequest {
    ChainHeight,
    BlockHeader(BlockID),
    BlockPOWInfo(BlockID),
}

/// The answer to a [`DatabaseRequest`].
#[derive(Clone, Copy, Debug, PartialEq, Eq)]
pub enum DatabaseResponse {
    ChainHeight(u64),
    BlockHeader(BlockHeader),
    BlockPOWInfo(BlockPOWInfo),
}

/// A call that the remote node offers.
#[derive(Clone, Copy, Debug, PartialEq, Eq)]
pub enum RemoteCall {
    /// The height of the node's chain.
    GetHeight,
    /// The block with this hash.
    GetBlock([u8; 32]),
    /// The block at this height.
    GetBlockByNumber(usize),
    /// The header record of the block with this hash.
    GetBlockHeaderByHash([u8; 32]),
    /// The header record of the block at this height.
    GetBlockHeaderByHeight(u64),
}

/// What the remote node returned.
#[derive(Clone, Copy, Debug, PartialEq, Eq)]
pub enum RemoteReply {
    /// The height of the node's chain.
    Height(usize),
    /// A block, of which the header is kept.
    Block(BlockHeader),
    /// A header record. The cumulative difficulty comes in two halves.
    HeaderRecord { cumulative_difficulty: u64, cumulative_difficulty_top64: u64, timestamp: u64 },
}

/// Why a lookup failed. `E` is the transport's own error.
#[derive(Debug, PartialEq, Eq)]
pub enum RpcError<E> {
    /// The call to the remote node failed.
    Transport(E),
    /// A height does not fit the integer type that has to carry it.
    HeightOutOfRange,
}

/// The cell that remembers the first transport failure of a connection.
///
/// It is empty when the connection is made and is written at most once.
#[derive(Debug)]
pub struct ErrorSlot<E> {
    stored: Option<E>,
}

impl<E> View for ErrorSlot<E> {
    type V = Option<E>;

    closed spec fn view(&self) -> Option<E> {
        self.stored
    }
}

impl<E> ErrorSlot<E> {
    /// The slot of a fresh connection.
    pub fn new() -> (slot: Self)
        ensures
            slot@ is None,
    {
        ErrorSlot { stored: None }
    }

    /// The failure that the slot holds, if any.
    pub fn stored(&self) -> (stored: &Option<E>)
        ensures
            *stored == self@,
    {
        &self.stored
    }

    /// Whether a failure has been recorded.
    pub fn is_poisoned(&self) -> (poisoned: bool)
        ensures
            poisoned == (self@ is Some),
    {
        self.stored.is_some()
    }

    /// Records `error` unless a failure is held already. The slot is never
    /// emptied and what it holds is never replaced.
    pub fn record(&mut self, error: E)
        ensures
            final(self)@ == (if old(self)@ is Some {
                old(self)@
            } else {
                Some(error)
            }),
    {
        if self.stored.is_none() {
            self.stored = Some(error);
        }
    }
}

/// Where a handle stands between two calls.
#[derive(Clone, Copy, Debug, PartialEq, Eq)]
pub enum Phase {
    /// The handle does not hold the permit and has not asked for it.
    Locked,
    /// The handle has asked for the permit and waits for it.
    Acquiring,
    /// The handle holds the permit and may place one call.
    Acquired,
}

/// What the driver reports to a handle while it becomes ready.
#[derive(Clone, Copy, Debug, PartialEq, Eq)]
pub enum ReadyEvent {
    /// The handle's readiness is polled.
    Polled,
    /// The permit was asked for and is still held by another handle.
    PermitPending,
    /// The permit was handed to this handle.
    PermitGranted,
}

/// What the driver has to do for a handle that becomes ready.
#[derive(Debug, PartialEq, Eq)]
pub enum ReadyAction<E> {
    /// Report this failure. The connection is not touched.
    Fail(E),
    /// Claim the permit, then report whether it was granted.
    Acquire,
    /// Ask again about the claim that was made before, then report whether the
    /// permit was granted.
    PollPermit,
    /// Report that the handle is not ready yet.
    Pending,
    /// Report that the handle is ready.
    Ready,
}

/// The state of a handle after `event`, which it met in `state` while the
/// slot was poisoned or not.
pub open spec fn ready_next(state: Phase, poisoned: bool, event: ReadyEvent) -> Phase {
    match event {
        ReadyEvent::Polled => if !poisoned && state is Locked {
            Phase::Acquiring
        } else {
            state
        },
        ReadyEvent::PermitPending => state,
        ReadyEvent::PermitGranted => Phase::Acquired,
    }
}

/// Whether `action` is what a handle in `state` asks for at `event` when the
/// slot holds `slot`.
pub open spec fn ready_requests<E: Clone>(
    state: Phase,
    slot: Option<E>,
    event: ReadyEvent,
    action: ReadyAction<E>,
) -> bool {
    match event {
        ReadyEvent::Polled => match slot {
            Some(held) => action matches ReadyAction::Fail(reported) && cloned(held, reported),
            None => action == (match state {
                Phase::Locked => ReadyAction::<E>::Acquire,
                Phase::Acquiring => ReadyAction::<E>::PollPermit,
                Phase::Acquired => ReadyAction::<E>::Ready,
            }),
        },
        ReadyEvent::PermitPending => action == ReadyAction::<E>::Pending,
        ReadyEvent::PermitGranted => action == ReadyAction::<E>::Ready,
    }
}

/// The remote call that answers `req`, or the failure when a height in `req`
/// does not fit the call.
pub open spec fn remote_call<E>(req: DatabaseRequest) -> Result<RemoteCall, RpcError<E>> {
    match req {
        DatabaseRequest::ChainHeight => Ok(RemoteCall::GetHeight),
        DatabaseRequest::BlockHeader(BlockID::Hash(hash)) => Ok(RemoteCall::GetBlock(hash)),
        DatabaseRequest::BlockHeader(BlockID::Height(height)) => if height <= usize::MAX {
            Ok(RemoteCall::GetBlockByNumber(height as usize))
        } else {
            Err(RpcError::HeightOutOfRange)
        },
        DatabaseRequest::BlockPOWInfo(BlockID::Hash(hash)) => Ok(
            RemoteCall::GetBlockHeaderByHash(hash),
        ),
        DatabaseRequest::BlockPOWInfo(BlockID::Height(height)) => Ok(
            RemoteCall::GetBlockHeaderByHeight(height),
        ),
    }
}

/// Whether `reply` is the kind of reply that the call for `req` returns.
pub open spec fn answers(req: DatabaseRequest, reply: RemoteReply) -> bool {
    match (req, reply) {
        (DatabaseRequest::ChainHeight, RemoteReply::Height(_)) => true,
        (DatabaseRequest::BlockHeader(_), RemoteReply::Block(_)) => true,
        (DatabaseRequest::BlockPOWInfo(_), RemoteReply::HeaderRecord { .. }) => true,
        _ => false,
    }
}

/// The response to `req` that `reply` amounts to.
pub open spec fn response<E>(req: DatabaseRequest, reply: RemoteReply) -> Result<
    DatabaseResponse,
    RpcError<E>,
> {
    match reply {
        RemoteReply::Height(height) => if height <= u64::MAX {
            Ok(DatabaseResponse::ChainHeight(height as u64))
        } else {
            Err(RpcError::HeightOutOfRange)
        },
        RemoteReply::Block(header) => Ok(DatabaseResponse::BlockHeader(header)),
        RemoteReply::HeaderRecord {
            cumulative_difficulty,
            cumulative_difficulty_top64,
            timestamp,
        } => Ok(
            DatabaseResponse::BlockPOWInfo(
                BlockPOWInfo {
                    timestamp,
                    cumulative_difficulty: combined_halves(
                        cumulative_difficulty,
                        cumulative_difficulty_top64,
                    ) as u128,
                },
            ),
        ),
    }
}

/// What the slot holds after a call that ended in `outcome`, when it held
/// `before`.
pub open spec fn slot_after<E: Clone>(
    before: Option<E>,
    outcome: Result<RemoteReply, E>,
    after: Option<E>,
) -> bool {
    match (before, outcome) {
        (None, Err(error)) => after matches Some(kept) && cloned(error, kept),
        _ => after == before,
    }
}

/// What a poll of a handle's readiness came to.
#[derive(Debug, PartialEq, Eq)]
pub enum Readiness<E> {
    /// The connection has failed, with this failure.
    Failed(E),
    /// Another handle holds the permit. The handle will be woken.
    Pending,
    /// The handle holds the permit and may place one call.
    Ready,
}

/// Whether a poll may end in `readiness` and leave the handle in `after`, when
/// it finds the handle in `before` and the slot holding `slot`.
///
/// A poisoned slot decides alone: the poll fails with a copy of the failure
/// and changes nothing. Otherwise a handle that holds the permit is ready, and
/// any other handle is ready with the permit or pending with a claim on it, as
/// the lock decides.
pub open spec fn polled<E: Clone>(
    before: Phase,
    slot: Option<E>,
    readiness: Readiness<E>,
    after: Phase,
) -> bool {
    match slot {
        Some(held) => {
            &&& readiness matches Readiness::Failed(reported)
            &&& cloned(held, reported)
            &&& after == before
        },
        None => {
            ||| readiness is Ready && after is Acquired
            ||| readiness is Pending && after is Acquiring && !(before is Acquired)
        },
    }
}

/// Takes one report while a handle becomes ready, and says where the handle
/// stands then and what to do next.
///
/// When the slot holds a failure, a poll fails with a copy of it, wherever the
/// handle stands, and asks nothing of the connection.
pub fn ready_step<E: Clone>(state: Phase, slot: &ErrorSlot<E>, event: ReadyEvent) -> (stepped: (
    Phase,
    ReadyAction<E>,
))
    requires
        event is Polled || state is Acquiring,
    ensures
        stepped.0 == ready_next(state, slot@ is Some, event),
        ready_requests(state, slot@, event, stepped.1),
{
    match event {
        ReadyEvent::Polled => match slot.stored() {
            Some(held) => (state, ReadyAction::Fail(held.clone())),
            None => match state {
                Phase::Locked => (Phase::Acquiring, ReadyAction::Acquire),
                Phase::Acquiring => (Phase::Acquiring, ReadyAction::PollPermit),
                Phase::Acquired => (Phase::Acquired, ReadyAction::Ready),
            },
        },
        ReadyEvent::PermitPending => (state, ReadyAction::Pending),
        ReadyEvent::PermitGranted => (Phase::Acquired, ReadyAction::Ready),
    }
}

/// What a handle holds of the lock.
#[verifier::reject_recursive_types(C)]
pub enum RpcState<C> {
    /// Nothing.
    Locked,
    /// A claim on the permit.
    Acquiring(OwnedMutexLockFuture<C>),
    /// The permit.
    Acquired(OwnedMutexGuard<C>),
}

impl<C> RpcState<C> {
    /// Where a handle that holds this stands.
    pub open spec fn phase(self) -> Phase {
        match self {
            RpcState::Locked => Phase::Locked,
            RpcState::Acquiring(_) => Phase::Acquiring,
            RpcState::Acquired(_) => Phase::Acquired,
        }
    }
}

/// One handle on a shared connection of type `C`.
#[verifier::reject_recursive_types(C)]
pub struct Rpc<C> {
    rpc: Arc<Mutex<C>>,
    rpc_state: RpcState<C>,
}

impl<C> Clone for Rpc<C> {
    /// A further handle on the same connection. It starts with nothing,
    /// whatever this handle holds.
    fn clone(&self) -> (handle: Self)
        ensures
            handle.connection() == self.connection(),
            handle.state() is Locked,
    {
        Rpc { rpc: share_connection(&self.rpc), rpc_state: RpcState::Locked }
    }
}

impl<C> Rpc<C> {
    /// The lock and the connection that the handle shares.
    pub closed spec fn connection(&self) -> Arc<Mutex<C>> {
        self.rpc
    }

    /// What the handle holds of the lock.
    pub closed spec fn state(&self) -> RpcState<C> {
        self.rpc_state
    }

    /// The first handle on `connection`, which is put behind a lock of its own.
    pub fn new(connection: C) -> (handle: Self)
        ensures
            handle.state() is Locked,
    {
        Rpc { rpc: Arc::new(guard_connection(connection)), rpc_state: RpcState::Locked }
    }

    /// Where the handle stands.
    pub fn phase(&self) -> (phase: Phase)
        ensures
            phase == self.state().phase(),
    {
        match &self.rpc_state {
            RpcState::Locked => Phase::Locked,
            RpcState::Acquiring(_) => Phase::Acquiring,
            RpcState::Acquired(_) => Phase::Acquired,
        }
    }

    /// Polls the readiness of the handle: fails if the connection has failed,
    /// and otherwise claims the permit, or asks again about the claim that it
    /// made before, until the lock grants it.
    ///
    /// `slot` is what the connection's slot holds at the time of the poll.
    pub fn poll_ready<E: Clone>(&mut self, slot: &ErrorSlot<E>, cx: &mut Context<'_>) -> (readiness:
        Readiness<E>)
        ensures
            polled(old(self).state().phase(), slot@, readiness, final(self).state().phase()),
            final(self).connection() == old(self).connection(),
            slot@ is Some ==> final(self).state() == old(self).state(),
    {
        let (claiming, action) = ready_step(self.phase(), slot, ReadyEvent::Polled);
        match action {
            ReadyAction::Fail(error) => Readiness::Failed(error),
            ReadyAction::Ready => Readiness::Ready,
            ReadyAction::Pending => unreached(),
            _ => {
                let mut held = RpcState::Locked;
                std::mem::swap(&mut held, &mut self.rpc_state);
                let claim = match held {
                    RpcState::Acquiring(claim) => claim,
                    _ => claim_permit(share_connection(&self.rpc)),
                };
                match poll_claim(claim, cx) {
                    Ok(permit) => {
                        let (_, verdict) = ready_step(claiming, slot, ReadyEvent::PermitGranted);
                        self.rpc_state = RpcState::Acquired(permit);
                        match verdict {
                            ReadyAction::Ready => Readiness::Ready,
                            _ => unreached(),
                        }
                    },
                    Err(claim) => {
                        let (_, verdict) = ready_step(claiming, slot, ReadyEvent::PermitPending);
                        self.rpc_state = RpcState::Acquiring(claim);
                        match verdict {
                            ReadyAction::Pending => Readiness::Pending,
                            _ => unreached(),
                        }
                    },
                }
            },
        }
    }

    /// Places the call for `req`: says which remote call answers it, and hands
    /// out the permit, which goes with the call. The handle is left with
    /// nothing.
    ///
    /// The handle must hold the permit.
    pub fn call<E>(&mut self, req: DatabaseRequest) -> (placed: (
        OwnedMutexGuard<C>,
        Result<RemoteCall, RpcError<E>>,
    ))
        requires
            old(self).state() is Acquired,
        ensures
            final(self).state() is Locked,
            final(self).connection() == old(self).connection(),
            old(self).state() == RpcState::Acquired(placed.0),
            placed.1 == remote_call::<E>(req),
    {
        let mut held = RpcState::Locked;
        std::mem::swap(&mut held, &mut self.rpc_state);
        let plan = match req {
            DatabaseRequest::ChainHeight => Ok(RemoteCall::GetHeight),
            DatabaseRequest::BlockHeader(BlockID::Hash(hash)) => Ok(RemoteCall::GetBlock(hash)),
            DatabaseRequest::BlockHeader(BlockID::Height(height)) => match usize::try_from(height) {
                Ok(number) => Ok(RemoteCall::GetBlockByNumber(number)),
                Err(_) => Err(RpcError::HeightOutOfRange),
            },
            DatabaseRequest::BlockPOWInfo(BlockID::Hash(hash)) => Ok(
                RemoteCall::GetBlockHeaderByHash(hash),
            ),
            DatabaseRequest::BlockPOWInfo(BlockID::Height(height)) => Ok(
                RemoteCall::GetBlockHeaderByHeight(height),
            ),
        };
        match held {
            RpcState::Acquired(permit) => (permit, plan),
            _ => unreached(),
        }
    }
}

/// Whether `reply` is the kind of reply that the call for `req` returns. A
/// driver checks this before it calls [`complete`].
pub fn reply_answers(req: DatabaseRequest, reply: RemoteReply) -> (fits: bool)
    ensures
        fits == answers(req, reply),
{
    match req {
        DatabaseRequest::ChainHeight => match reply {
            RemoteReply::Height(_) => true,
            _ => false,
        },
        DatabaseRequest::BlockHeader(_) => match reply {
            RemoteReply::Block(_) => true,
            _ => false,
        },
        DatabaseRequest::BlockPOWInfo(_) => match reply {
            RemoteReply::HeaderRecord { .. } => true,
            _ => false,
        },
    }
}

/// Ends the call for `req` with what the remote node returned, and gives the
/// permit back, however the call ended.
///
/// A transport failure is written to the slot before it is handed on and
/// before the permit is given back. A reply becomes the response to `req`; a
/// chain height that does not fit 64 bits fails and is not cut short.
pub fn complete<C, E: Clone>(
    permit: OwnedMutexGuard<C>,
    req: DatabaseRequest,
    outcome: Result<RemoteReply, E>,
    slot: &mut ErrorSlot<E>,
) -> (res: Result<DatabaseResponse, RpcError<E>>)
    requires
        outcome matches Ok(reply) ==> answers(req, reply),
    ensures
        slot_after(old(slot)@, outcome, final(slot)@),
        res == (match outcome {
            Ok(reply) => response::<E>(req, reply),
            Err(error) => Err(RpcError::Transport(error)),
        }),
{
    let res = match outcome {
        Err(error) => {
            slot.record(error.clone());
            Err(RpcError::Transport(error))
        },
        Ok(RemoteReply::Height(height)) => match u64::try_from(height) {
            Ok(height) => Ok(DatabaseResponse::ChainHeight(height)),
            Err(_) => Err(RpcError::HeightOutOfRange),
        },
        Ok(RemoteReply::Block(header)) => Ok(DatabaseResponse::BlockHeader(header)),
        Ok(
            RemoteReply::HeaderRecord { cumulative_difficulty, cumulative_difficulty_top64, timestamp },
        ) => {
            proof {
                lemma_halves_are_kept(cumulative_difficulty, cumulative_difficulty_top64);
            }
            Ok(
                DatabaseResponse::BlockPOWInfo(
                    get_blocks_pow_info(cumulative_difficulty, cumulative_difficulty_top64, timestamp),
                ),
            )
        },
    };
    give_back(permit);
    res
}

/// Gives a permit back to the lock: the permit ends here.
fn give_back<C>(permit: OwnedMutexGuard<C>) {
}

} // verus!
