//! What this library takes on trust from tokio and from std.
//!
//! Every item here is believed as written and proved nowhere. None of them
//! says what a shared value holds: the count and the waiter list change under
//! the feet of any one caller.

use std::sync::atomic::AtomicUsize;
use std::sync::Arc;
use tokio::sync::futures::Notified;
use tokio::sync::Notify;
use vstd::prelude::*;

verus! {

/// `tokio::sync::Notify`, carried as an opaque value.
#[verifier::external_type_specification]
#[verifier::external_body]
pub struct ExNotify(Notify);

/// `tokio::sync::futures::Notified`, the future of one registered waiter,
/// carried as an opaque value.
#[verifier::external_type_specification]
#[verifier::external_body]
pub struct ExNotified<'a>(Notified<'a>);

/// `Notify::new`: a wake mechanism with no waiter and no stored permit.
/// Nothing is claimed of the value.
pub assume_specification[ Notify::new ]() -> Notify
;

/// The wake mechanism on which a registration waits: the `Notify` whose
/// `notified` made it. A `Notified` keeps a reference to it for as long as
/// it lives.
pub uninterp spec fn notifier_of(registration: &Notified) -> Notify;

/// `Notify::notified`: the future of a new waiter. It receives every
/// `notify_waiters` made after this call returns. What is claimed is that the
/// future waits on the `Notify` it was asked of; whether and when it
/// completes is not.
pub assume_specification<'a>[ Notify::notified ](notify: &'a Notify) -> (registration: Notified<'a>)
    ensures
        notifier_of(&registration) == *notify,
;

/// The value that an atomic counter held when it was created. What it holds
/// later changes under a shared reference and has no name.
pub uninterp spec fn initial_value(counter: &AtomicUsize) -> usize;

/// `AtomicUsize::new`: a new atomic integer that starts at `value`.
#[verifier::external_body]
pub(crate) fn new_counter(value: usize) -> (counter: AtomicUsize)
    ensures
        initial_value(&counter) == value,
{
    AtomicUsize::new(value)
}

/// `Arc::clone`: a second pointer to the same allocation. The result points
/// at the very value that `arc` points at.
#[verifier::external_body]
pub(crate) fn clone_arc<T>(arc: &Arc<T>) -> (same: Arc<T>)
    ensures
        same == *arc,
{
    Arc::clone(arc)
}

} // verus!
