//! The rules of the completion signal, on plain values.
//!
//! A shared count says how many handles are alive; it starts at one, for the
//! root. A handle that goes away wakes the waiters exactly when it leaves one
//! handle behind. A wait is a small state machine: it reads the count,
//! finishes if the count is one, and otherwise sleeps until it is woken and
//! reads again. Nothing here touches shared memory: the functions below decide,
//! and the handle acts on what they return.

use vstd::prelude::*;

verus! {

/// The count at which only one handle is left.
pub const QUIESCENT_COUNT: usize = 1;

/// Where a call of `wait` stands.
#[derive(Clone, Copy, Debug, PartialEq, Eq, Structural)]
pub enum WaitState {
    /// About to read the count.
    Checking,
    /// Registered as a waiter and asleep until woken.
    Suspended,
    /// Has seen the count at one. Terminal.
    Done,
}

/// What a driver reports back to a wait.
#[derive(Clone, Copy, Debug, PartialEq, Eq, Structural)]
pub enum WaitEvent {
    /// The count was read, with acquire ordering, and had this value.
    Observed(usize),
    /// The waiter was woken, with or without cause.
    Woken,
}

/// What the release of a handle found, and what is left to do.
#[derive(Clone, Copy, Debug, PartialEq, Eq, Structural)]
pub struct Released {
    /// The count before this handle's unit was taken from it.
    pub previous: usize,
    /// Whether the waiters have to be woken now: the action that the one who
    /// released owes.
    pub wake: bool,
}

/// Whether `count` means that exactly one handle is left.
pub open spec fn quiescent(count: int) -> bool {
    count == QUIESCENT_COUNT as int
}

/// Whether a handle that found `previous` as the count before it subtracted
/// its own unit has to wake the waiters: it does when it leaves one behind.
pub open spec fn wakes(previous: int) -> bool {
    quiescent(previous - 1)
}

/// The state of a wait after it has read `count`. Only a wait that is
/// checking reads; the others are left as they are.
pub open spec fn after_check(state: WaitState, count: int) -> WaitState {
    match state {
        WaitState::Checking => if quiescent(count) {
            WaitState::Done
        } else {
            WaitState::Suspended
        },
        WaitState::Suspended => WaitState::Suspended,
        WaitState::Done => WaitState::Done,
    }
}

/// The state of a wait after a wake. A wake promises nothing about the count:
/// it sends a suspended wait back to checking and changes no other.
pub open spec fn after_wake(state: WaitState) -> WaitState {
    match state {
        WaitState::Checking => WaitState::Checking,
        WaitState::Suspended => WaitState::Checking,
        WaitState::Done => WaitState::Done,
    }
}

/// The transition function of a wait.
pub open spec fn next_state(state: WaitState, event: WaitEvent) -> WaitState {
    match event {
        WaitEvent::Observed(count) => after_check(state, count as int),
        WaitEvent::Woken => after_wake(state),
    }
}

/// What a wait that is checking answers to a read of `count`: done at one,
/// suspended at any other.
pub open spec fn answer_to(count: usize) -> WaitState {
    next_state(WaitState::Checking, WaitEvent::Observed(count))
}

/// The state of a wait that started at `Checking` and has seen `events`.
pub open spec fn state_after(events: Seq<WaitEvent>) -> WaitState
    decreases events.len(),
{
    if events.len() == 0 {
        WaitState::Checking
    } else {
        next_state(state_after(events.drop_last()), events.last())
    }
}

/// Whether `event` is a read that found the count at one.
pub open spec fn observes_quiescence(event: WaitEvent) -> bool {
    event matches WaitEvent::Observed(count) && quiescent(count as int)
}

/// Decides, from the count a departing handle found before its decrement,
/// whether it must wake the waiters.
pub fn should_wake(previous: usize) -> (wake: bool)
    ensures
        wake == wakes(previous as int),
        wake <==> previous == 2,
{
    previous == QUIESCENT_COUNT + 1
}

/// Advances a wait by one event.
///
/// A driver starts at `Checking` and loops: in `Checking` it reads the count
/// and reports `Observed`; in `Suspended` it registers with the wake
/// mechanism, sleeps, and reports `Woken`; in `Done` it returns.
pub fn step(state: WaitState, event: WaitEvent) -> (next: WaitState)
    ensures
        next == next_state(state, event),
        state == WaitState::Checking && event == WaitEvent::Observed(1) ==> next
            == WaitState::Done,
{
    match event {
        WaitEvent::Observed(count) => match state {
            WaitState::Checking => if count == QUIESCENT_COUNT {
                WaitState::Done
            } else {
                WaitState::Suspended
            },
            WaitState::Suspended => WaitState::Suspended,
            WaitState::Done => WaitState::Done,
        },
        WaitEvent::Woken => match state {
            WaitState::Checking => WaitState::Checking,
            WaitState::Suspended => WaitState::Checking,
            WaitState::Done => WaitState::Done,
        },
    }
}

/// `Done` is terminal: no event leads out of it.
pub proof fn lemma_done_is_terminal(event: WaitEvent)
    ensures
        next_state(WaitState::Done, event) == WaitState::Done,
{
}

/// A wait whose first read finds the count at one is done from then on and
/// is never suspended.
pub proof fn lemma_first_read_of_one_resolves(events: Seq<WaitEvent>, seen: int)
    requires
        1 <= seen <= events.len(),
        observes_quiescence(events[0]),
    ensures
        state_after(events.take(0)) == WaitState::Checking,
        state_after(events.take(seen)) == WaitState::Done,
    decreases seen,
{
    if seen > 1 {
        lemma_first_read_of_one_resolves(events, seen - 1);
        assert(events.take(seen).drop_last() == events.take(seen - 1));
    } else {
        assert(events.take(1).drop_last() == events.take(0));
    }
}

/// A wait resolves only on a read of one: as long as no read has found the
/// count at one, no number of wakes and of other reads ends it.
pub proof fn lemma_no_resolution_without_reading_one(events: Seq<WaitEvent>)
    requires
        forall|i: int| 0 <= i < events.len() ==> !observes_quiescence(#[trigger] events[i]),
    ensures
        state_after(events) != WaitState::Done,
    decreases events.len(),
{
    if events.len() > 0 {
        lemma_no_resolution_without_reading_one(events.drop_last());
    }
}

} // verus!
