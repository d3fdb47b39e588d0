//! The handle: a reference-counted token on which one can wait until it is
//! the only one left.

use crate::outside::clone_arc;
use crate::outside::notifier_of;
use crate::protocol::answer_to;
use crate::protocol::step;
use crate::protocol::Released;
use crate::protocol::WaitEvent;
use crate::protocol::WaitState;
use crate::protocol::QUIESCENT_COUNT;
use crate::shared::SharedState;
use std::sync::Arc;
use tokio::sync::futures::Notified;
use tokio::sync::Notify;
use vstd::prelude::*;

verus! {

/// A handle on a shared completion signal.
///
/// The root is made by [`WaitCounter::new`]; `clone` hands out further
/// handles, each of which counts as alive until it is given up with
/// [`WaitCounter::release`]. A wait on the root ends when the count of live
/// handles is back at one.
///
/// The handle has no destructor of its own. An owner that wants the release
/// at scope exit wraps the handle in a guard whose destructor calls
/// `release` and makes the wake that it asks for.
pub struct WaitCounter {
    shared: Arc<SharedState>,
}

impl View for WaitCounter {
    type V = SharedState;

    /// The shared state behind the handle. The handles of one family have
    /// the same view.
    closed spec fn view(&self) -> SharedState {
        *self.shared
    }
}

impl WaitCounter {
    /// Creates a root handle on a fresh shared state, whose count starts at
    /// one.
    pub fn new() -> (root: Self)
        ensures
            root@.initial_count() == QUIESCENT_COUNT,
    {
        WaitCounter { shared: Arc::new(SharedState::new()) }
    }

    /// A further handle on the same shared state, for a task whose release
    /// is to wake the waiters. It is counted as any clone is: the count goes
    /// up by one.
    pub fn wake_clone(&self) -> (handle: Self)
        ensures
            handle@ == self@,
    {
        self.shared.increment();
        WaitCounter { shared: clone_arc(&self.shared) }
    }

    /// Gives the handle up: takes one from the count and says whether the
    /// waiters have to be woken, which they do exactly when the count found
    /// was two. It is called once for a handle, when its owner is done with
    /// it; a handle that goes away without this call stays counted for ever.
    ///
    /// The wake is the caller's to make, on [`WaitCounter::notifier`]: it
    /// runs the wakers of the registered tasks, which may panic, and only
    /// the caller can say what is to happen then.
    pub fn release(&self) -> (outcome: Released)
        ensures
            outcome.wake <==> outcome.previous == 2,
    {
        self.shared.release()
    }

    /// The wake mechanism of this handle's family. Whoever released a handle
    /// and was told to wake calls `notify_waiters` on it.
    pub fn notifier(&self) -> (notify: &Notify)
        ensures
            *notify == self@.wake_mechanism(),
    {
        self.shared.notifier()
    }

    /// The number of live handles, read with acquire ordering. Other tasks
    /// may change it at any moment.
    pub fn live_count(&self) -> usize {
        self.shared.read_count()
    }

    /// The checking step of a wait: reads the count and says whether the wait
    /// is done or has to suspend. The count is whatever the family has left
    /// there, so the contract can only say that the answer is the state
    /// machine's answer to some count.
    pub fn check(&self) -> (next: WaitState)
        ensures
            exists|count: usize| next == #[trigger] answer_to(count),
            next == WaitState::Done || next == WaitState::Suspended,
    {
        let count: usize = self.shared.read_count();
        let next = step(WaitState::Checking, WaitEvent::Observed(count));
        assert(next == answer_to(count));
        next
    }

    /// Registers a waiter with the wake mechanism of this handle's family.
    /// The future completes at the next wake; a wait that has to suspend
    /// awaits it and then checks again.
    pub fn notified(&self) -> (registration: Notified<'_>)
        ensures
            notifier_of(&registration) == self@.wake_mechanism(),
    {
        self.shared.register()
    }
}

impl Clone for WaitCounter {
    /// A further handle on the same shared state; the count goes up by one.
    fn clone(&self) -> (handle: Self)
        ensures
            handle@ == self@,
    {
        self.shared.increment();
        WaitCounter { shared: clone_arc(&self.shared) }
    }
}

} // verus!
