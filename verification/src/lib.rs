//! An awaitable, reference-counted completion signal.
//!
//! A root handle is cloned for every task that has work to do; each clone
//! counts as alive until it is released, and whoever holds the root can wait
//! until the count of live handles is back at one.
//!
//! - [`protocol`] holds the rules on plain values: when a release has to wake the
//!   waiters and how a wait moves between checking, suspended and done.
//! - [`model`] runs those rules on a whole family of handles and proves what
//!   holds of every interleaving of clones, releases and waits.
//! - [`shared`] and [`counter`] are the shared state and the handle, built on
//!   an atomic count and on tokio's `Notify`.
//! - [`outside`] lists what is taken on trust from tokio and std.
//!
//! Waiting itself needs an executor: a caller drives [`WaitCounter::check`],
//! [`WaitCounter::notified`] and [`step`] in a loop and awaits in between.
//! Giving a handle up is [`WaitCounter::release`], and where its outcome asks
//! for a wake, the caller makes it on [`WaitCounter::notifier`].

pub mod counter;
pub mod model;
pub mod outside;
pub mod protocol;
pub mod shared;

pub use counter::WaitCounter;
pub use protocol::should_wake;
pub use protocol::step;
pub use protocol::Released;
pub use protocol::WaitEvent;
pub use protocol::WaitState;
