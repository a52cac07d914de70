//! Cooperative, poll-driven asynchronous work.
//!
//! The crate performs no scheduling of its own: in-flight work is a value
//! that the caller's scheduler advances by repeated polls. What one poll may
//! do to a handle is its implementation's business; each implementation
//! publishes that as its [`PollTask::poll_spec`] transition relation, and
//! every poll is guaranteed to be one step of that relation.

use vstd::prelude::*;

verus! {

/// The outcome of polling an in-flight piece of work once.
#[derive(PartialEq, Eq, Debug)]
pub enum TaskPoll<T, E> {
    /// Not ready yet; the handle has arranged to be woken and should be
    /// polled again.
    Pending,
    /// The work finished and produced its value. The handle is spent.
    Ready(T),
    /// The work failed. The handle is spent.
    Failed(E),
}

/// A handle to in-flight asynchronous work, advanced by polling.
///
/// An implementation chooses its own transition relation `poll_spec`; `poll`
/// promises only that one call is one step of that relation. A deterministic
/// handle can pin the step down exactly; a handle whose outcome depends on
/// the outside world states what holds of every outcome.
pub trait PollTask: Sized {
    /// What the work produces when it succeeds.
    type Item;

    /// What the work reports when it fails.
    type Error;

    /// The transition relation of one poll: from the handle's value before
    /// the call and its value after, to the reported outcome.
    spec fn poll_spec(pre: Self, post: Self, r: TaskPoll<Self::Item, Self::Error>) -> bool;

    /// Advance the work by one step.
    fn poll(&mut self) -> (r: TaskPoll<Self::Item, Self::Error>)
        ensures
            Self::poll_spec(*old(self), *final(self), r),
    ;
}

} // verus!
