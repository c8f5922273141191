//! Using a `TryFuture` where a `Future` is asked for.

use vstd::prelude::*;
use std::task::Waker;
use crate::future::FusedFuture;
use crate::future::Future;
use crate::future::TryFuture;
use crate::task::Poll;

verus! {

/// Future for the `into_future` combinator: polls a `TryFuture` as a `Future`
/// whose output is the `Result`.
#[derive(Debug)]
pub struct IntoFuture<Fut> {
    pub future: Fut,
}

impl<Fut> IntoFuture<Fut> {
    /// Creates a new `IntoFuture`.
    pub fn new(future: Fut) -> (into_future: IntoFuture<Fut>)
        ensures
            into_future.future == future,
    {
        IntoFuture { future }
    }
}

impl<Fut: TryFuture> IntoFuture<Fut> {
    /// The states in which the future may be polled.
    pub open spec fn pollable(&self) -> bool {
        self.future.try_pollable()
    }

    /// Whether a poll that starts in `self` may end in `next` and return `r`.
    pub open spec fn polls_to(&self, next: &Self, r: Poll<Result<Fut::Ok, Fut::Error>>) -> bool {
        self.future.try_polls_to(&next.future, r)
    }

    /// Polls the inner future as a `TryFuture`.
    pub fn poll(&mut self, waker: &Waker) -> (r: Poll<Result<Fut::Ok, Fut::Error>>)
        requires
            old(self).pollable(),
        ensures
            old(self).polls_to(final(self), r),
            r is Pending ==> final(self).pollable(),
    {
        self.future.try_poll(waker)
    }

    /// As a `Future`, this polls as `pollable` and `polls_to` say.
    pub proof fn lemma_future(&self, next: &Self, r: Poll<Result<Fut::Ok, Fut::Error>>)
        ensures
            Future::pollable(self) == self.pollable(),
            Future::polls_to(self, next, r) == self.polls_to(next, r),
    {
    }
}

impl<Fut: TryFuture> Future for IntoFuture<Fut> {
    type Output = Result<Fut::Ok, Fut::Error>;

    open spec fn pollable(&self) -> bool {
        IntoFuture::pollable(self)
    }

    open spec fn polls_to(&self, next: &Self, r: Poll<Result<Fut::Ok, Fut::Error>>) -> bool {
        IntoFuture::polls_to(self, next, r)
    }

    fn poll(&mut self, waker: &Waker) -> (r: Poll<Result<Fut::Ok, Fut::Error>>) {
        IntoFuture::poll(self, waker)
    }
}

impl<Fut, T, E> IntoFuture<Fut> where Fut: FusedFuture<Output = Result<T, E>> {
    /// Whether the future has completed.
    pub open spec fn terminated(&self) -> bool {
        self.future.terminated()
    }

    /// Returns `true` if the future should no longer be polled.
    pub fn is_terminated(&self) -> (b: bool)
        ensures
            b == self.terminated(),
    {
        self.future.is_terminated()
    }
}

impl<Fut, T, E> FusedFuture for IntoFuture<Fut> where Fut: FusedFuture<Output = Result<T, E>> {
    open spec fn terminated(&self) -> bool {
        IntoFuture::terminated(self)
    }

    fn is_terminated(&self) -> (b: bool) {
        IntoFuture::is_terminated(self)
    }

    proof fn lemma_fused(&self, next: &Self, r: Poll<Result<T, E>>) {
        self.future.lemma_fused(&next.future, r);
    }
}

} // verus!
