//! A future that returns `Pending` once before it goes on.

use vstd::prelude::*;
use std::task::Waker;
use crate::future::FusedFuture;
use crate::future::Future;
use crate::task::Poll;

verus! {

/// Combinator that returns `Poll::Pending` from its first poll, after waking
/// the waker, and polls its inner future from then on.
#[derive(Debug)]
pub struct PendingOnce<Fut> {
    pub future: Fut,
    pub polled_before: bool,
}

impl<Fut: Future> PendingOnce<Fut> {
    /// Wraps `future`; the first poll is still to come.
    pub fn new(future: Fut) -> (once: PendingOnce<Fut>)
        ensures
            once.future == future,
            !once.polled_before,
    {
        PendingOnce { future, polled_before: false }
    }

    /// The states in which the future may be polled.
    pub open spec fn pollable(&self) -> bool {
        self.future.pollable()
    }

    /// Whether a poll that starts in `self` may end in `next` and return `r`.
    pub open spec fn polls_to(&self, next: &Self, r: Poll<Fut::Output>) -> bool {
        &&& next.polled_before
        &&& if self.polled_before {
            self.future.polls_to(&next.future, r)
        } else {
            r is Pending && next.future == self.future
        }
    }

    /// Returns `Pending` from the first poll, after waking `waker`, and polls the
    /// inner future from then on.
    pub fn poll(&mut self, waker: &Waker) -> (r: Poll<Fut::Output>)
        requires
            old(self).pollable(),
        ensures
            old(self).polls_to(final(self), r),
            r is Pending ==> final(self).pollable(),
    {
        if self.polled_before {
            self.future.poll(waker)
        } else {
            self.polled_before = true;
            waker.wake_by_ref();
            Poll::Pending
        }
    }

    /// As a `Future`, this polls as `pollable` and `polls_to` say.
    pub proof fn lemma_future(&self, next: &Self, r: Poll<Fut::Output>)
        ensures
            Future::pollable(self) == self.pollable(),
            Future::polls_to(self, next, r) == self.polls_to(next, r),
    {
    }
}

impl<Fut: Future> Future for PendingOnce<Fut> {
    type Output = Fut::Output;

    open spec fn pollable(&self) -> bool {
        PendingOnce::pollable(self)
    }

    open spec fn polls_to(&self, next: &Self, r: Poll<Fut::Output>) -> bool {
        PendingOnce::polls_to(self, next, r)
    }

    fn poll(&mut self, waker: &Waker) -> (r: Poll<Fut::Output>) {
        PendingOnce::poll(self, waker)
    }
}

impl<Fut: FusedFuture> PendingOnce<Fut> {
    /// Whether the future has completed.
    pub open spec fn terminated(&self) -> bool {
        self.polled_before && self.future.terminated()
    }

    /// Returns `true` if the future should no longer be polled.
    pub fn is_terminated(&self) -> (b: bool)
        ensures
            b == self.terminated(),
    {
        self.polled_before && self.future.is_terminated()
    }
}

impl<Fut: FusedFuture> FusedFuture for PendingOnce<Fut> {
    open spec fn terminated(&self) -> bool {
        PendingOnce::terminated(self)
    }

    fn is_terminated(&self) -> (b: bool) {
        PendingOnce::is_terminated(self)
    }

    proof fn lemma_fused(&self, next: &Self, r: Poll<Fut::Output>) {
        if self.polled_before {
            self.future.lemma_fused(&next.future, r);
        }
    }
}

} // verus!
