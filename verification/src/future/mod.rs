//! Futures: values that become available after zero or more polls.

use vstd::prelude::*;
use crate::task::Poll;
use std::task::Waker;

pub mod abortable;
pub mod chain;
pub mod empty;
pub mod fuse;
pub mod inspect;
pub mod pending_once;
pub mod ready;
pub mod then;
pub mod unit_error;

pub use abortable::abortable;
pub use abortable::AbortHandle;
pub use abortable::AbortRegistration;
pub use abortable::Abortable;
pub use abortable::Aborted;
pub use chain::Chain;
pub use empty::empty;
pub use empty::Empty;
pub use fuse::Fuse;
pub use inspect::Inspect;
pub use pending_once::PendingOnce;
pub use ready::ready;
pub use ready::Ready;
pub use then::Then;
pub use unit_error::UnitError;

verus! {

/// A value that becomes available after zero or more polls.
///
/// A future is a state machine. `polls_to` is its transition relation: it says
/// which states and results one poll may lead to. `pollable` holds of the
/// states in which `poll` may be called: the well-formed states in which the
/// future has not completed yet.
pub trait Future {
    /// The value the future resolves to.
    type Output;

    /// The states in which the future may be polled. Where an impl does not
    /// say, every state is taken to be one.
    open spec fn pollable(&self) -> bool {
        true
    }

    /// Whether a poll that starts in `self` may end in `next` and return `r`.
    /// Where an impl does not say, a poll may do anything.
    open spec fn polls_to(&self, next: &Self, r: Poll<Self::Output>) -> bool {
        true
    }

    /// Attempts to resolve the future.
    ///
    /// Returns `Poll::Pending` when the value is not available yet; the future
    /// has then arranged for `waker` to fire once progress is possible, and it
    /// may be polled again. After `Poll::Ready` the future must not be polled
    /// again.
    fn poll(&mut self, waker: &Waker) -> (r: Poll<Self::Output>)
        requires
            old(self).pollable(),
        ensures
            old(self).polls_to(final(self), r),
            r is Pending ==> final(self).pollable(),
    ;
}

/// Whether one poll of `fut` may complete it with `v`.
pub open spec fn completes_with<Fut: Future>(fut: Fut, v: Fut::Output) -> bool {
    exists|done: Fut| #[trigger] fut.polls_to(&done, Poll::Ready(v))
}

/// Whether `fut` may return `Pending` from `pending` polls in a row and
/// complete with `v` at the next one.
pub open spec fn resolves_after<Fut: Future>(fut: Fut, pending: nat, v: Fut::Output) -> bool
    decreases pending,
{
    if pending == 0 {
        completes_with(fut, v)
    } else {
        exists|next: Fut| #[trigger]
            fut.polls_to(&next, Poll::Pending) && resolves_after(next, (pending - 1) as nat, v)
    }
}

/// Whether `holds(fut, out)` says that `fut` can complete with `out` only:
/// a poll that returns `Pending` keeps it, and a poll that returns `Ready`
/// returns `out`.
pub open spec fn resolves_only_to<Fut: Future>(holds: spec_fn(Fut, Fut::Output) -> bool) -> bool {
    forall|fut: Fut, out: Fut::Output, next: Fut, r: Poll<Fut::Output>|
        #![trigger holds(fut, out), fut.polls_to(&next, r)]
        holds(fut, out) && fut.polls_to(&next, r) ==> match r {
            Poll::Pending => holds(next, out),
            Poll::Ready(got) => got == out,
        }
}

/// A future that knows whether it has completed.
///
/// `is_terminated` is `true` once the future has returned `Poll::Ready`.
pub trait FusedFuture: Future {
    /// Whether the future should no longer be polled.
    spec fn terminated(&self) -> bool;

    /// Returns `true` if the future should no longer be polled.
    fn is_terminated(&self) -> (b: bool)
        ensures
            b == self.terminated(),
    ;

    /// A poll that returns `Poll::Ready` leaves the future terminated.
    proof fn lemma_fused(&self, next: &Self, r: Poll<Self::Output>)
        requires
            self.pollable(),
            self.polls_to(next, r),
        ensures
            r is Ready ==> next.terminated(),
    ;
}

/// A future whose output is a `Result`.
pub trait TryFuture {
    /// The type of successful values.
    type Ok;

    /// The type of failures.
    type Error;

    /// The states in which the future may be polled. Where an impl does not
    /// say, every state is taken to be one.
    open spec fn try_pollable(&self) -> bool {
        true
    }

    /// Whether a poll that starts in `self` may end in `next` and return `r`.
    /// Where an impl does not say, a poll may do anything.
    open spec fn try_polls_to(&self, next: &Self, r: Poll<Result<Self::Ok, Self::Error>>) -> bool {
        true
    }

    /// Polls this future as `Future::poll` does.
    fn try_poll(&mut self, waker: &Waker) -> (r: Poll<Result<Self::Ok, Self::Error>>)
        requires
            old(self).try_pollable(),
        ensures
            old(self).try_polls_to(final(self), r),
            r is Pending ==> final(self).try_pollable(),
    ;
}

impl<F, T, E> TryFuture for F where F: Future<Output = Result<T, E>> {
    type Ok = T;

    type Error = E;

    open spec fn try_pollable(&self) -> bool {
        self.pollable()
    }

    open spec fn try_polls_to(&self, next: &Self, r: Poll<Result<T, E>>) -> bool {
        self.polls_to(next, r)
    }

    fn try_poll(&mut self, waker: &Waker) -> (r: Poll<Result<T, E>>) {
        self.poll(waker)
    }
}

/// A future whose output is a `Result` polls as a `TryFuture` exactly as it
/// polls as a `Future`.
pub proof fn lemma_try_future<F, T, E>(fut: F, next: F, r: Poll<Result<T, E>>) where
    F: Future<Output = Result<T, E>>,

    ensures
        fut.try_pollable() == fut.pollable(),
        fut.try_polls_to(&next, r) == fut.polls_to(&next, r),
{
}

/// Whether one poll of `fut` may complete it with `v`.
pub open spec fn try_completes_with<Fut: TryFuture>(fut: Fut, v: Result<Fut::Ok, Fut::Error>) -> bool {
    exists|done: Fut| #[trigger] fut.try_polls_to(&done, Poll::Ready(v))
}

} // verus!
