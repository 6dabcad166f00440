//! Many handles on one connection, and what holds of all of them together.
//!
//! [`Sharing`] describes a connection with its handles and the calls that are
//! under way. Of the lock that guards the connection only one thing is taken
//! for granted: it hands out the permit when nobody holds it, and at no other
//! time.

use vstd::prelude::*;
use crate::rpc::{
    polled, ready_next, ready_requests, slot_after, Phase, ReadyAction, ReadyEvent, Readiness,
    RemoteReply,
};

verus! {

/// The number of handles that hold the permit.
pub open spec fn handles_holding(handles: Seq<Phase>) -> nat
    decreases handles.len(),
{
    if handles.len() == 0 {
        0
    } else {
        handles_holding(handles.drop_last()) + if handles.last() is Acquired {
            1nat
        } else {
            0nat
        }
    }
}

/// A connection that is shared: where each of its handles stands, and how many
/// calls are under way on it.
pub struct Sharing {
    pub handles: Seq<Phase>,
    pub calls_in_flight: nat,
}

/// What can happen on a shared connection.
pub enum Move {
    /// The handle with this number is cloned.
    CloneHandle { handle: int },
    /// A handle takes a report while it becomes ready.
    Report { handle: int, poisoned: bool, event: ReadyEvent },
    /// A handle places a call. The permit goes with the call if a remote call
    /// is placed, and is given back at once if none is.
    Call { handle: int, placed: bool },
    /// A call that was under way has ended and has given the permit back.
    Return,
}

impl Sharing {
    /// A connection with its first handle.
    pub open spec fn fresh() -> Sharing {
        Sharing { handles: seq![Phase::Locked], calls_in_flight: 0 }
    }

    /// The number of permits that are out: with a handle, or with a call.
    pub open spec fn permits_out(self) -> nat {
        handles_holding(self.handles) + self.calls_in_flight
    }

    /// Whether `m` can happen now. A handle takes only the reports that it
    /// waits for and places a call only while it holds the permit, and the lock
    /// grants the permit only when none is out.
    pub open spec fn allows(self, m: Move) -> bool {
        match m {
            Move::CloneHandle { handle } => 0 <= handle < self.handles.len(),
            Move::Report { handle, poisoned, event } => {
                &&& 0 <= handle < self.handles.len()
                &&& event is Polled || self.handles[handle] is Acquiring
                &&& event is PermitGranted ==> self.permits_out() == 0
            },
            Move::Call { handle, placed } => {
                &&& 0 <= handle < self.handles.len()
                &&& self.handles[handle] is Acquired
            },
            Move::Return => self.calls_in_flight > 0,
        }
    }

    /// The connection after `m`.
    pub open spec fn after(self, m: Move) -> Sharing {
        match m {
            Move::CloneHandle { handle } => Sharing {
                handles: self.handles.push(Phase::Locked),
                calls_in_flight: self.calls_in_flight,
            },
            Move::Report { handle, poisoned, event } => Sharing {
                handles: self.handles.update(
                    handle,
                    ready_next(self.handles[handle], poisoned, event),
                ),
                calls_in_flight: self.calls_in_flight,
            },
            Move::Call { handle, placed } => Sharing {
                handles: self.handles.update(handle, Phase::Locked),
                calls_in_flight: if placed {
                    self.calls_in_flight + 1
                } else {
                    self.calls_in_flight
                },
            },
            Move::Return => Sharing {
                handles: self.handles,
                calls_in_flight: (self.calls_in_flight - 1) as nat,
            },
        }
    }

    /// The connection after `moves`, made in turn.
    pub open spec fn after_all(self, moves: Seq<Move>) -> Sharing
        decreases moves.len(),
    {
        if moves.len() == 0 {
            self
        } else {
            self.after_all(moves.drop_last()).after(moves.last())
        }
    }

    /// Whether each of `moves` can happen when its turn comes.
    pub open spec fn allows_all(self, moves: Seq<Move>) -> bool
        decreases moves.len(),
    {
        moves.len() == 0 || (self.allows_all(moves.drop_last()) && self.after_all(
            moves.drop_last(),
        ).allows(moves.last()))
    }
}

/// Changing where one handle stands changes the number of holders by that
/// handle alone.
pub proof fn lemma_holding_update(handles: Seq<Phase>, handle: int, state: Phase)
    requires
        0 <= handle < handles.len(),
    ensures
        handles_holding(handles.update(handle, state)) + (if handles[handle] is Acquired {
            1nat
        } else {
            0nat
        }) == handles_holding(handles) + (if state is Acquired {
            1nat
        } else {
            0nat
        }),
    decreases handles.len(),
{
    let updated = handles.update(handle, state);
    if handle == handles.len() - 1 {
        assert(updated.drop_last() =~= handles.drop_last());
    } else {
        lemma_holding_update(handles.drop_last(), handle, state);
        assert(updated.drop_last() =~= handles.drop_last().update(handle, state));
    }
}

/// No move brings a second permit out.
pub proof fn lemma_move_keeps_one_permit(sharing: Sharing, m: Move)
    requires
        sharing.permits_out() <= 1,
        sharing.allows(m),
    ensures
        sharing.after(m).permits_out() <= 1,
{
    match m {
        Move::CloneHandle { handle } => {
            assert(sharing.handles.push(Phase::Locked).drop_last() =~= sharing.handles);
        },
        Move::Report { handle, poisoned, event } => {
            lemma_holding_update(
                sharing.handles,
                handle,
                ready_next(sharing.handles[handle], poisoned, event),
            );
        },
        Move::Call { handle, placed } => {
            lemma_holding_update(sharing.handles, handle, Phase::Locked);
        },
        Move::Return => {},
    }
}

/// However many handles share a connection and whatever they do in whatever
/// order, at most one permit is out at any time, so at most one call is under
/// way.
pub proof fn lemma_one_call_at_a_time(moves: Seq<Move>)
    requires
        Sharing::fresh().allows_all(moves),
    ensures
        Sharing::fresh().after_all(moves).permits_out() <= 1,
        Sharing::fresh().after_all(moves).calls_in_flight <= 1,
    decreases moves.len(),
{
    if moves.len() == 0 {
        reveal_with_fuel(handles_holding, 2);
    } else {
        lemma_one_call_at_a_time(moves.drop_last());
        lemma_move_keeps_one_permit(Sharing::fresh().after_all(moves.drop_last()), moves.last());
    }
}

/// While the slot holds a failure, a handle whose readiness is polled reports a
/// copy of that failure, wherever it stands, and stays where it stands: it asks
/// for no permit and places no call.
pub proof fn lemma_poisoned_poll_fails<E: Clone>(state: Phase, held: E, action: ReadyAction<E>)
    requires
        ready_requests(state, Some(held), ReadyEvent::Polled, action),
    ensures
        action matches ReadyAction::Fail(reported) && cloned(held, reported),
        ready_next(state, true, ReadyEvent::Polled) == state,
{
}

/// A poll of a handle goes the way of the single steps: it leaves the handle
/// where the report of the poll leaves it, or where the lock's answer to the
/// claim leaves it after that.
pub proof fn lemma_poll_takes_the_steps<E: Clone>(
    before: Phase,
    slot: Option<E>,
    readiness: Readiness<E>,
    after: Phase,
)
    requires
        polled(before, slot, readiness, after),
    ensures
        ({
            let claimed = ready_next(before, slot is Some, ReadyEvent::Polled);
            ||| after == claimed && !(readiness is Pending)
            ||| claimed is Acquiring && readiness is Pending && after == ready_next(
                claimed,
                slot is Some,
                ReadyEvent::PermitPending,
            )
            ||| claimed is Acquiring && readiness is Ready && after == ready_next(
                claimed,
                slot is Some,
                ReadyEvent::PermitGranted,
            )
        }),
{
}

/// A handle comes to hold the permit in one way only: the lock grants it.
pub proof fn lemma_permit_comes_from_the_lock(state: Phase, poisoned: bool, event: ReadyEvent)
    requires
        ready_next(state, poisoned, event) is Acquired,
    ensures
        state is Acquired || event is PermitGranted,
{
}

/// Whether `slots` is what the slot holds before and after each of `outcomes`,
/// the calls that end on the connection, in turn.
pub open spec fn slot_history<E: Clone>(
    slots: Seq<Option<E>>,
    outcomes: Seq<Result<RemoteReply, E>>,
) -> bool {
    &&& slots.len() == outcomes.len() + 1
    &&& forall|i: int|
        0 <= i < outcomes.len() ==> slot_after(slots[i], #[trigger] outcomes[i], slots[i + 1])
}

/// The call that fails first poisons the slot, and the slot then holds that
/// failure for good: whatever calls end later, and however they end, it is
/// neither emptied nor overwritten.
pub proof fn lemma_first_failure_sticks<E: Clone>(
    slots: Seq<Option<E>>,
    outcomes: Seq<Result<RemoteReply, E>>,
    failed: int,
    later: int,
)
    requires
        slot_history(slots, outcomes),
        0 <= failed < later < slots.len(),
        outcomes[failed] is Err,
    ensures
        slots[later] is Some,
        slots[later] == slots[failed + 1],
        slots[failed] is None ==> cloned(outcomes[failed]->Err_0, slots[later]->Some_0),
    decreases later,
{
    if later > failed + 1 {
        lemma_first_failure_sticks(slots, outcomes, failed, later - 1);
        assert(slot_after(slots[later - 1], outcomes[later - 1], slots[later]));
    } else {
        assert(slot_after(slots[failed], outcomes[failed], slots[failed + 1]));
    }
}

/// Once a call has failed, the readiness of every handle fails from then on
/// with the failure that the slot holds, and nothing is asked of the
/// connection: the handle makes no claim, is granted no permit and stays where
/// it stands.
pub proof fn lemma_failed_call_fails_every_later_poll<E: Clone>(
    slots: Seq<Option<E>>,
    outcomes: Seq<Result<RemoteReply, E>>,
    failed: int,
    later: int,
    before: Phase,
    readiness: Readiness<E>,
    after: Phase,
)
    requires
        slot_history(slots, outcomes),
        0 <= failed < later < slots.len(),
        outcomes[failed] is Err,
        polled(before, slots[later], readiness, after),
    ensures
        slots[later] is Some,
        readiness matches Readiness::Failed(reported) && cloned(slots[later]->Some_0, reported),
        after == before,
{
    lemma_first_failure_sticks(slots, outcomes, failed, later);
}

} // verus!
