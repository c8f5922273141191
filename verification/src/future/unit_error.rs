//! Turning a future into one that cannot fail.

use vstd::prelude::*;
use std::task::Waker;
use crate::future::FusedFuture;
use crate::future::Future;
use crate::task::Poll;

verus! {

/// Future for the `unit_error` combinator: wraps the output in `Ok`, with `()`
/// as the error that never comes.
#[derive(Debug)]
pub struct UnitError<Fut> {
    pub future: Fut,
}

impl<Fut> UnitError<Fut> {
    /// Creates a new `UnitError`.
    pub fn new(future: Fut) -> (unit_error: UnitError<Fut>)
        ensures
            unit_error.future == future,
    {
        UnitError { future }
    }
}

impl<Fut: Future> UnitError<Fut> {
    /// The states in which the future may be polled.
    pub open spec fn pollable(&self) -> bool {
        self.future.pollable()
    }

    /// Whether a poll that starts in `self` may end in `next` and return `r`.
    pub open spec fn polls_to(&self, next: &Self, r: Poll<Result<Fut::Output, ()>>) -> bool {
        match r {
            Poll::Pending => self.future.polls_to(&next.future, Poll::Pending),
            Poll::Ready(Ok(out)) => self.future.polls_to(&next.future, Poll::Ready(out)),
            Poll::Ready(Err(_)) => false,
        }
    }

    /// Polls the inner future and wraps its output in `Ok`.
    pub fn poll(&mut self, waker: &Waker) -> (r: Poll<Result<Fut::Output, ()>>)
        requires
            old(self).pollable(),
        ensures
            old(self).polls_to(final(self), r),
            r is Pending ==> final(self).pollable(),
    {
        match self.future.poll(waker) {
            Poll::Pending => Poll::Pending,
            Poll::Ready(out) => Poll::Ready(Ok(out)),
        }
    }

    /// As a `Future`, this polls as `pollable` and `polls_to` say.
    pub proof fn lemma_future(&self, next: &Self, r: Poll<Result<Fut::Output, ()>>)
        ensures
            Future::pollable(self) == self.pollable(),
            Future::polls_to(self, next, r) == self.polls_to(next, r),
    {
    }
}

impl<Fut: Future> Future for UnitError<Fut> {
    type Output = Result<Fut::Output, ()>;

    open spec fn pollable(&self) -> bool {
        UnitError::pollable(self)
    }

    open spec fn polls_to(&self, next: &Self, r: Poll<Result<Fut::Output, ()>>) -> bool {
        UnitError::polls_to(self, next, r)
    }

    fn poll(&mut self, waker: &Waker) -> (r: Poll<Result<Fut::Output, ()>>) {
        UnitError::poll(self, waker)
    }
}

impl<Fut: FusedFuture> UnitError<Fut> {
    /// Whether the future has completed.
    pub open spec fn terminated(&self) -> bool {
        self.future.terminated()
    }

    /// Returns `true` if the future should no longer be polled.
    pub fn is_terminated(&self) -> (b: bool)
        ensures
            b == self.terminated(),
    {
        self.future.is_terminated()
    }
}

impl<Fut: FusedFuture> FusedFuture for UnitError<Fut> {
    open spec fn terminated(&self) -> bool {
        UnitError::terminated(self)
    }

    fn is_terminated(&self) -> (b: bool) {
        UnitError::is_terminated(self)
    }

    proof fn lemma_fused(&self, next: &Self, r: Poll<Result<Fut::Output, ()>>) {
        match r {
            Poll::Pending => self.future.lemma_fused(&next.future, Poll::Pending),
            Poll::Ready(out) => self.future.lemma_fused(&next.future, Poll::Ready(out->Ok_0)),
        }
    }
}

} // verus!
