//! A model of one family of handles and the waits on it, and what holds of
//! every run of it.
//!
//! A snapshot holds the live count and every wait that was ever started.
//! Events change it one at a time: a handle is cloned, a clone is dropped, a
//! wait starts, reads the count, registers with the wake mechanism, or is
//! woken. A drop that leaves one handle wakes, in the same step, every wait
//! that is registered. The root, on which the waits stand, is not dropped
//! while the run lasts.
//!
//! A wait reads first and registers afterwards, in two steps. A drop that
//! falls between the two wakes nobody on behalf of that wait. What the laws
//! on resolution ask is that this did not happen at the last drop that left
//! one handle, which is [`last_wake_reached_everyone`], and
//! [`lemma_wake_between_read_and_registration_is_lost`] shows what becomes of
//! a wait where it did.
//!
//! The transitions are built from the functions of [`crate::protocol`], which
//! are the ones the handle decides with. Each event stands for calls on a
//! handle: `Cloned` for `clone` or `wake_clone`, `Dropped` for `release`
//! together with the wake that its outcome asks for, `Checked` for `check`,
//! `Registered` for `notified`, and a wake for the completion of the future
//! that `notified` returned.

use crate::protocol::after_check;
use crate::protocol::after_wake;
use crate::protocol::quiescent;
use crate::protocol::wakes;
use crate::protocol::WaitState;
use crate::protocol::QUIESCENT_COUNT;
use vstd::prelude::*;

verus! {

/// One wait in progress.
pub struct Waiter {
    /// Where its state machine stands.
    pub state: WaitState,
    /// Whether it has registered with the wake mechanism since it was last
    /// told to suspend. Only a registered wait is reached by a wake.
    pub registered: bool,
}

/// The live count and every wait, at one moment.
pub struct Snapshot {
    /// The number of live handles.
    pub live: int,
    /// The waits, in the order in which they started.
    pub waits: Seq<Waiter>,
}

/// One atomic step of a run.
pub enum Event {
    /// A handle is cloned, by `clone` or by `wake_clone`.
    Cloned,
    /// A handle other than the root is dropped, that is, released.
    Dropped,
    /// A new wait starts.
    Started,
    /// The wait with this index reads the count.
    Checked(int),
    /// The wait with this index, told to suspend, registers.
    Registered(int),
    /// The wait with this index is woken though no drop asked for it.
    Woken(int),
}

/// The root alone, and nobody waiting.
pub open spec fn initial() -> Snapshot {
    Snapshot { live: QUIESCENT_COUNT as int, waits: Seq::empty() }
}

/// Whether a wake reaches `waiter`: it has to be suspended and registered.
pub open spec fn asleep(waiter: Waiter) -> bool {
    waiter.state == WaitState::Suspended && waiter.registered
}

/// Whether `waiter` has read a count other than one and has not registered
/// yet.
pub open spec fn between_read_and_registration(waiter: Waiter) -> bool {
    waiter.state == WaitState::Suspended && !waiter.registered
}

/// `waiter` after a wake: one that is asleep goes back to checking, and any
/// other does not notice.
pub open spec fn after_wake_of(waiter: Waiter) -> Waiter {
    if asleep(waiter) {
        Waiter { state: after_wake(waiter.state), registered: false }
    } else {
        waiter
    }
}

/// `waiter` after it has read `count`.
pub open spec fn after_read_of(waiter: Waiter, count: int) -> Waiter {
    Waiter { state: after_check(waiter.state, count), registered: waiter.registered }
}

/// `waiter` after it has registered, which only a suspended wait does.
pub open spec fn after_registration_of(waiter: Waiter) -> Waiter {
    if waiter.state == WaitState::Suspended {
        Waiter { state: waiter.state, registered: true }
    } else {
        waiter
    }
}

/// Every wait after a wake of all that are registered.
pub open spec fn wake_all(waits: Seq<Waiter>) -> Seq<Waiter> {
    Seq::new(waits.len(), |i: int| after_wake_of(waits[i]))
}

/// Whether `event` can happen at `snapshot`: only a clone can be dropped, and
/// only a wait that exists can act or be woken.
pub open spec fn enabled(snapshot: Snapshot, event: Event) -> bool {
    match event {
        Event::Cloned => true,
        Event::Dropped => snapshot.live >= 2,
        Event::Started => true,
        Event::Checked(i) => 0 <= i < snapshot.waits.len(),
        Event::Registered(i) => 0 <= i < snapshot.waits.len(),
        Event::Woken(i) => 0 <= i < snapshot.waits.len(),
    }
}

/// The snapshot after `event`.
pub open spec fn apply(snapshot: Snapshot, event: Event) -> Snapshot {
    match event {
        Event::Cloned => Snapshot { live: snapshot.live + 1, waits: snapshot.waits },
        Event::Dropped => Snapshot {
            live: snapshot.live - 1,
            waits: if wakes(snapshot.live) {
                wake_all(snapshot.waits)
            } else {
                snapshot.waits
            },
        },
        Event::Started => Snapshot {
            live: snapshot.live,
            waits: snapshot.waits.push(Waiter { state: WaitState::Checking, registered: false }),
        },
        Event::Checked(i) => Snapshot {
            live: snapshot.live,
            waits: snapshot.waits.update(i, after_read_of(snapshot.waits[i], snapshot.live)),
        },
        Event::Registered(i) => Snapshot {
            live: snapshot.live,
            waits: snapshot.waits.update(i, after_registration_of(snapshot.waits[i])),
        },
        Event::Woken(i) => Snapshot {
            live: snapshot.live,
            waits: snapshot.waits.update(i, after_wake_of(snapshot.waits[i])),
        },
    }
}

/// The snapshot that `events` lead to from the initial one.
pub open spec fn run(events: Seq<Event>) -> Snapshot
    decreases events.len(),
{
    if events.len() == 0 {
        initial()
    } else {
        apply(run(events.drop_last()), events.last())
    }
}

/// Whether each of `events` can happen where it stands.
pub open spec fn admissible(events: Seq<Event>) -> bool
    decreases events.len(),
{
    events.len() == 0 || (admissible(events.drop_last()) && enabled(
        run(events.drop_last()),
        events.last(),
    ))
}

/// How many clones `events` make.
pub open spec fn clones_in(events: Seq<Event>) -> nat
    decreases events.len(),
{
    if events.len() == 0 {
        0
    } else if events.last() == Event::Cloned {
        clones_in(events.drop_last()) + 1
    } else {
        clones_in(events.drop_last())
    }
}

/// How many drops `events` hold.
pub open spec fn drops_in(events: Seq<Event>) -> nat
    decreases events.len(),
{
    if events.len() == 0 {
        0
    } else if events.last() == Event::Dropped {
        drops_in(events.drop_last()) + 1
    } else {
        drops_in(events.drop_last())
    }
}

/// Whether no wait of `waits` stands between its read and its registration.
pub open spec fn all_settled(waits: Seq<Waiter>) -> bool {
    forall|i: int| 0 <= i < waits.len() ==> !between_read_and_registration(#[trigger] waits[i])
}

/// Whether no wait of `waits` is suspended, registered or not.
pub open spec fn nobody_suspended(waits: Seq<Waiter>) -> bool {
    forall|i: int| 0 <= i < waits.len() ==> (#[trigger] waits[i]).state != WaitState::Suspended
}

/// Whether the last drop of `events` that left one handle, if there is one,
/// came at a moment when no wait stood between its read and its
/// registration. Earlier drops may have raced: the last wake makes up for
/// them.
pub open spec fn last_wake_reached_everyone(events: Seq<Event>) -> bool
    decreases events.len(),
{
    if events.len() == 0 {
        true
    } else if events.last() == Event::Dropped && wakes(run(events.drop_last()).live) {
        all_settled(run(events.drop_last()).waits)
    } else {
        last_wake_reached_everyone(events.drop_last())
    }
}

/// Whether event `at` of `events` is a read by wait `wait` made at a moment
/// when every clone made until then had been dropped.
pub open spec fn checked_with_all_clones_dropped(events: Seq<Event>, wait: int, at: int) -> bool {
    &&& 0 <= at < events.len()
    &&& events[at] == Event::Checked(wait)
    &&& drops_in(events.take(at)) == clones_in(events.take(at))
}

/// The count equals the number of live handles: one for the root and one for
/// each clone not yet dropped. It never falls below one, and it is one
/// exactly when every clone has been dropped, however clones and drops were
/// interleaved.
pub proof fn lemma_count_tracks_live_clones(events: Seq<Event>)
    requires
        admissible(events),
    ensures
        drops_in(events) <= clones_in(events),
        run(events).live == 1 + clones_in(events) - drops_in(events),
        run(events).live >= 1,
        quiescent(run(events).live) <==> drops_in(events) == clones_in(events),
    decreases events.len(),
{
    if events.len() > 0 {
        lemma_count_tracks_live_clones(events.drop_last());
    }
}

/// A wait is done only if one of its own reads came at a moment when every
/// clone made until then had been dropped. Neither a wake, with or without
/// cause, nor a read while a clone lives resolves it.
pub proof fn lemma_done_only_after_all_clones_dropped(events: Seq<Event>, wait: int)
    requires
        admissible(events),
        0 <= wait < run(events).waits.len(),
        run(events).waits[wait].state == WaitState::Done,
    ensures
        exists|at: int| checked_with_all_clones_dropped(events, wait, at),
    decreases events.len(),
{
    let before = events.drop_last();
    let was = run(before);
    if 0 <= wait < was.waits.len() && was.waits[wait].state == WaitState::Done {
        lemma_done_only_after_all_clones_dropped(before, wait);
        let at = choose|at: int| checked_with_all_clones_dropped(before, wait, at);
        assert(before.take(at) == events.take(at));
        assert(checked_with_all_clones_dropped(events, wait, at));
    } else {
        let at = events.len() - 1;
        lemma_count_tracks_live_clones(before);
        assert(events.take(at) == before);
        assert(checked_with_all_clones_dropped(events, wait, at));
    }
}

/// Where the last wake reached every wait, none is suspended while the count
/// is one.
pub proof fn lemma_nobody_suspended_at_quiescence(events: Seq<Event>)
    requires
        admissible(events),
        last_wake_reached_everyone(events),
        quiescent(run(events).live),
    ensures
        nobody_suspended(run(events).waits),
    decreases events.len(),
{
    if events.len() > 0 {
        let before = events.drop_last();
        lemma_count_tracks_live_clones(before);
        if events.last() == Event::Dropped {
            lemma_drop_wakes_all_or_none(run(before));
        } else {
            lemma_nobody_suspended_at_quiescence(before);
        }
    }
}

/// Once every clone has been dropped, and the last wake reached every wait,
/// no wait is suspended and each wait is done after its next read: none is
/// starved, however many there are and whenever they started.
pub proof fn lemma_all_clones_dropped_resolves_every_wait(events: Seq<Event>, wait: int)
    requires
        admissible(events),
        last_wake_reached_everyone(events),
        drops_in(events) == clones_in(events),
        0 <= wait < run(events).waits.len(),
    ensures
        run(events).waits[wait].state != WaitState::Suspended,
        apply(run(events), Event::Checked(wait)).waits[wait].state == WaitState::Done,
{
    lemma_count_tracks_live_clones(events);
    lemma_nobody_suspended_at_quiescence(events);
}

/// A wait that is done stays done, whatever happens next: it completes once.
pub proof fn lemma_done_stays_done(snapshot: Snapshot, event: Event, wait: int)
    requires
        enabled(snapshot, event),
        0 <= wait < snapshot.waits.len(),
        snapshot.waits[wait].state == WaitState::Done,
    ensures
        apply(snapshot, event).waits[wait].state == WaitState::Done,
{
}

/// A drop wakes the waits exactly when it leaves one handle behind: then it
/// wakes all that are registered, and otherwise none.
pub proof fn lemma_drop_wakes_all_or_none(snapshot: Snapshot)
    requires
        enabled(snapshot, Event::Dropped),
    ensures
        apply(snapshot, Event::Dropped).live == snapshot.live - 1,
        snapshot.live == 2 ==> apply(snapshot, Event::Dropped).waits == wake_all(snapshot.waits),
        snapshot.live != 2 ==> apply(snapshot, Event::Dropped).waits == snapshot.waits,
{
}

/// The race: a wait reads the count while a clone lives, the clone is dropped
/// before the wait has registered, and the wait then sleeps although the
/// count is one.
pub proof fn lemma_wake_between_read_and_registration_is_lost()
    ensures
        ({
            let events = seq![
                Event::Cloned,
                Event::Started,
                Event::Checked(0),
                Event::Dropped,
                Event::Registered(0),
            ];
            &&& admissible(events)
            &&& !last_wake_reached_everyone(events)
            &&& quiescent(run(events).live)
            &&& asleep(run(events).waits[0])
        }),
{
    let events = seq![
        Event::Cloned,
        Event::Started,
        Event::Checked(0),
        Event::Dropped,
        Event::Registered(0),
    ];
    let e0 = Seq::<Event>::empty();
    let e1 = seq![Event::Cloned];
    let e2 = seq![Event::Cloned, Event::Started];
    let e3 = seq![Event::Cloned, Event::Started, Event::Checked(0)];
    let e4 = seq![Event::Cloned, Event::Started, Event::Checked(0), Event::Dropped];
    assert(e1.drop_last() == e0);
    assert(e2.drop_last() == e1);
    assert(e3.drop_last() == e2);
    assert(e4.drop_last() == e3);
    assert(events.drop_last() == e4);
    assert(run(e0) == initial() && admissible(e0));
    assert(run(e1).live == 2 && admissible(e1));
    assert(run(e2).waits.len() == 1 && admissible(e2));
    assert(between_read_and_registration(run(e3).waits[0]) && admissible(e3));
    assert(!all_settled(run(e3).waits));
    assert(run(e4).live == 1 && admissible(e4) && !last_wake_reached_everyone(e4));
}

} // verus!
