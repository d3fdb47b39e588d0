//! The block of state that every handle of one family shares: the live count
//! and the wake mechanism.
//!
//! The count is an atomic integer and the wake mechanism a `tokio::sync::Notify`.
//! Both change under a shared reference and other tasks change them too, so no
//! contract here says what value the count has: what is read is whatever the
//! other handles have left there. The decisions taken on a value once it is
//! read are the verified functions of [`crate::protocol`].

use crate::outside::initial_value;
use crate::outside::new_counter;
use crate::outside::notifier_of;
use crate::protocol::should_wake;
use crate::protocol::Released;
use crate::protocol::QUIESCENT_COUNT;
use std::sync::atomic::AtomicUsize;
use std::sync::atomic::Ordering;
use tokio::sync::futures::Notified;
use tokio::sync::Notify;
use vstd::prelude::*;

verus! {

/// The live count and the wake mechanism of one family of handles.
pub struct SharedState {
    live_count: AtomicUsize,
    waiters: Notify,
}

impl SharedState {
    /// The count that the block was created with. The count of the moment
    /// changes under a shared reference, and no spec function gives it.
    pub closed spec fn initial_count(&self) -> usize {
        initial_value(&self.live_count)
    }

    /// The wake mechanism of the block.
    pub closed spec fn wake_mechanism(&self) -> Notify {
        self.waiters
    }

    /// A fresh block for a root handle: the count starts at one.
    pub(crate) fn new() -> (state: Self)
        ensures
            state.initial_count() == QUIESCENT_COUNT,
    {
        SharedState { live_count: new_counter(QUIESCENT_COUNT), waiters: Notify::new() }
    }

    /// Adds one to the count. Relaxed: a new handle publishes nothing.
    pub(crate) fn increment(&self) {
        let _previous: usize = self.live_count.fetch_add(1, Ordering::Relaxed);
    }

    /// Takes one from the count, with release ordering, and decides whether
    /// the waiters have to be woken: they do exactly when the count found
    /// was two. The wake itself is left to the caller.
    pub fn release(&self) -> (outcome: Released)
        ensures
            outcome.wake <==> outcome.previous == 2,
    {
        let previous: usize = self.live_count.fetch_sub(1, Ordering::Release);
        Released { previous, wake: should_wake(previous) }
    }

    /// The wake mechanism, for the one who has to wake the waiters.
    pub(crate) fn notifier(&self) -> (notify: &Notify)
        ensures
            *notify == self.wake_mechanism(),
    {
        &self.waiters
    }

    /// Reads the count with acquire ordering.
    pub(crate) fn read_count(&self) -> usize {
        self.live_count.load(Ordering::Acquire)
    }

    /// Registers a waiter with the wake mechanism of this block.
    pub(crate) fn register(&self) -> (registration: Notified<'_>)
        ensures
            notifier_of(&registration) == self.wake_mechanism(),
    {
        self.waiters.notified()
    }
}

} // verus!
