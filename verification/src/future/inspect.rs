//! Looking at the output of a future on its way out.

use vstd::prelude::*;
use std::task::Waker;
use crate::future::FusedFuture;
use crate::future::Future;
use crate::task::Poll;

verus! {

/// Future for the `inspect` combinator: hands a reference to the output to a
/// function and passes the output on.
#[derive(Debug)]
pub struct Inspect<Fut, F> {
    pub future: Fut,
    pub f: Option<F>,
}

impl<Fut: Future, F: FnOnce(&Fut::Output)> Inspect<Fut, F> {
    /// Creates a new `Inspect`.
    pub fn new(future: Fut, f: F) -> (inspect: Inspect<Fut, F>)
        ensures
            inspect.future == future,
            inspect.f == Some(f),
    {
        Inspect { future, f: Some(f) }
    }
}

impl<Fut, F> Inspect<Fut, F> where Fut: Future, F: FnOnce(&Fut::Output) {
    /// The states in which the future may be polled.
    pub open spec fn pollable(&self) -> bool {
        &&& self.future.pollable()
        &&& self.f is Some
        &&& forall|out: Fut::Output| #[trigger] call_requires(self.f->0, (&out,))
    }

    /// Whether a poll that starts in `self` may end in `next` and return `r`.
    pub open spec fn polls_to(&self, next: &Self, r: Poll<Fut::Output>) -> bool {
        &&& self.future.polls_to(&next.future, r)
        &&& r is Pending ==> next.f == self.f
        &&& r is Ready ==> next.f is None
    }

    /// Polls the inner future; once it is ready, shows the output to the function
    /// and passes it on.
    pub fn poll(&mut self, waker: &Waker) -> (r: Poll<Fut::Output>)
        requires
            old(self).pollable(),
        ensures
            old(self).polls_to(final(self), r),
            r is Pending ==> final(self).pollable(),
    {
        match self.future.poll(waker) {
            Poll::Pending => Poll::Pending,
            Poll::Ready(out) => {
                let f = self.f.take().unwrap();
                f(&out);
                Poll::Ready(out)
            },
        }
    }

    /// As a `Future`, this polls as `pollable` and `polls_to` say.
    pub proof fn lemma_future(&self, next: &Self, r: Poll<Fut::Output>)
        ensures
            Future::pollable(self) == self.pollable(),
            Future::polls_to(self, next, r) == self.polls_to(next, r),
    {
    }
}

impl<Fut, F> Future for Inspect<Fut, F> where Fut: Future, F: FnOnce(&Fut::Output) {
    type Output = Fut::Output;

    open spec fn pollable(&self) -> bool {
        Inspect::pollable(self)
    }

    open spec fn polls_to(&self, next: &Self, r: Poll<Fut::Output>) -> bool {
        Inspect::polls_to(self, next, r)
    }

    fn poll(&mut self, waker: &Waker) -> (r: Poll<Fut::Output>) {
        Inspect::poll(self, waker)
    }
}

impl<Fut, F> Inspect<Fut, F> where Fut: FusedFuture, F: FnOnce(&Fut::Output) {
    /// Whether the future has completed.
    pub open spec fn terminated(&self) -> bool {
        self.future.terminated()
    }

    /// Returns `true` if the future should no longer be polled.
    pub fn is_terminated(&self) -> (b: bool)
        ensures
            b == self.terminated(),
    {
        self.future.is_terminated()
    }
}

impl<Fut, F> FusedFuture for Inspect<Fut, F> where Fut: FusedFuture, F: FnOnce(&Fut::Output) {
    open spec fn terminated(&self) -> bool {
        Inspect::terminated(self)
    }

    fn is_terminated(&self) -> (b: bool) {
        Inspect::is_terminated(self)
    }

    proof fn lemma_fused(&self, next: &Self, r: Poll<Fut::Output>) {
        self.future.lemma_fused(&next.future, r);
    }
}

} // verus!
