//! A future that may be polled after it has completed.

use vstd::prelude::*;
use std::task::Waker;
use crate::future::FusedFuture;
use crate::future::Future;
use crate::task::Poll;

verus! {

/// A future which drops the underlying future once it has completed, and
/// returns `Poll::Pending` from every poll after that.
#[derive(Debug)]
pub struct Fuse<Fut> {
    pub future: Option<Fut>,
}

impl<Fut: Future> Fuse<Fut> {
    /// Wraps `future`, which has not completed yet.
    pub fn new(future: Fut) -> (fuse: Fuse<Fut>)
        ensures
            fuse.future == Some(future),
    {
        Fuse { future: Some(future) }
    }

    /// The states in which the future may be polled.
    pub open spec fn pollable(&self) -> bool {
        self.future is Some ==> self.future->0.pollable()
    }

    /// Whether a poll that starts in `self` may end in `next` and return `r`.
    pub open spec fn polls_to(&self, next: &Self, r: Poll<Fut::Output>) -> bool {
        match self.future {
            None => r is Pending && next.future is None,
            Some(fut) => match r {
                Poll::Pending => next.future is Some && fut.polls_to(
                    &next.future->0,
                    Poll::Pending,
                ),
                Poll::Ready(out) => next.future is None && crate::future::completes_with(fut, out),
            },
        }
    }

    /// Polls the inner future until it has completed, and drops it then; returns
    /// `Pending` from every poll after that.
    pub fn poll(&mut self, waker: &Waker) -> (r: Poll<Fut::Output>)
        requires
            old(self).pollable(),
        ensures
            old(self).polls_to(final(self), r),
            r is Pending ==> final(self).pollable(),
    {
        match self.future.take() {
            None => Poll::Pending,
            Some(mut fut) => {
                match fut.poll(waker) {
                    Poll::Pending => {
                        self.future = Some(fut);
                        Poll::Pending
                    },
                    Poll::Ready(out) => {
                        Poll::Ready(out)
                    },
                }
            },
        }
    }

    /// As a `Future`, this polls as `pollable` and `polls_to` say.
    pub proof fn lemma_future(&self, next: &Self, r: Poll<Fut::Output>)
        ensures
            Future::pollable(self) == self.pollable(),
            Future::polls_to(self, next, r) == self.polls_to(next, r),
    {
    }
}

impl<Fut: Future> Future for Fuse<Fut> {
    type Output = Fut::Output;

    open spec fn pollable(&self) -> bool {
        Fuse::pollable(self)
    }

    open spec fn polls_to(&self, next: &Self, r: Poll<Fut::Output>) -> bool {
        Fuse::polls_to(self, next, r)
    }

    fn poll(&mut self, waker: &Waker) -> (r: Poll<Fut::Output>) {
        Fuse::poll(self, waker)
    }
}

impl<Fut: Future> Fuse<Fut> {
    /// Whether the future has completed.
    pub open spec fn terminated(&self) -> bool {
        self.future is None
    }

    /// Returns `true` if the future should no longer be polled.
    pub fn is_terminated(&self) -> (b: bool)
        ensures
            b == self.terminated(),
    {
        self.future.is_none()
    }
}

impl<Fut: Future> FusedFuture for Fuse<Fut> {
    open spec fn terminated(&self) -> bool {
        Fuse::terminated(self)
    }

    fn is_terminated(&self) -> (b: bool) {
        Fuse::is_terminated(self)
    }

    proof fn lemma_fused(&self, next: &Self, r: Poll<Fut::Output>) {
    }
}

} // verus!
