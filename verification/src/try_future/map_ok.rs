//! Mapping the success value of a future.

use vstd::prelude::*;
use std::task::Waker;
use crate::future::FusedFuture;
use crate::future::Future;
use crate::task::Poll;

verus! {

/// Future for the `map_ok` combinator: applies a function to the success
/// value and passes an error on.
#[derive(Debug)]
pub struct MapOk<Fut, F> {
    pub future: Fut,
    pub f: Option<F>,
}

impl<Fut, F> MapOk<Fut, F> {
    /// Creates a new `MapOk`.
    pub fn new(future: Fut, f: F) -> (map_ok: MapOk<Fut, F>)
        ensures
            map_ok.future == future,
            map_ok.f == Some(f),
    {
        MapOk { future, f: Some(f) }
    }
}

impl<Fut, F, T, E, U> MapOk<Fut, F> where
    Fut: Future<Output = Result<T, E>>,
    F: FnOnce(T) -> U,
 {
    /// The states in which the future may be polled.
    pub open spec fn pollable(&self) -> bool {
        &&& self.future.pollable()
        &&& self.f is Some
        &&& forall|ok: T| #[trigger] call_requires(self.f->0, (ok,))
    }

    /// Whether a poll that starts in `self` may end in `next` and return `r`.
    pub open spec fn polls_to(&self, next: &Self, r: Poll<Result<U, E>>) -> bool {
        match r {
            Poll::Pending => self.future.polls_to(&next.future, Poll::Pending) && next.f == self.f,
            Poll::Ready(Err(e)) => self.future.polls_to(&next.future, Poll::Ready(Err(e)))
                && next.f is None,
            Poll::Ready(Ok(mapped)) => next.f is None && exists|ok: T|
                {
                    &&& #[trigger] self.future.polls_to(&next.future, Poll::Ready(Ok(ok)))
                    &&& call_ensures(self.f->0, (ok,), mapped)
                },
        }
    }

    /// Polls the inner future; once it is ready, applies the function to a success
    /// value and passes an error on.
    pub fn poll(&mut self, waker: &Waker) -> (r: Poll<Result<U, E>>)
        requires
            old(self).pollable(),
        ensures
            old(self).polls_to(final(self), r),
            r is Pending ==> final(self).pollable(),
    {
        let ghost before = *self;
        match self.future.poll(waker) {
            Poll::Pending => Poll::Pending,
            Poll::Ready(result) => {
                let f = self.f.take().unwrap();
                match result {
                    Ok(ok) => {
                        let mapped = f(ok);
                        let r = Poll::Ready(Ok(mapped));
                        assert(before.future.polls_to(&self.future, Poll::Ready(Ok(ok))));
                        r
                    },
                    Err(e) => Poll::Ready(Err(e)),
                }
            },
        }
    }

    /// As a `Future`, this polls as `pollable` and `polls_to` say.
    pub proof fn lemma_future(&self, next: &Self, r: Poll<Result<U, E>>)
        ensures
            Future::pollable(self) == self.pollable(),
            Future::polls_to(self, next, r) == self.polls_to(next, r),
    {
    }
}

impl<Fut, F, T, E, U> Future for MapOk<Fut, F> where
    Fut: Future<Output = Result<T, E>>,
    F: FnOnce(T) -> U,
 {
    type Output = Result<U, E>;

    open spec fn pollable(&self) -> bool {
        MapOk::pollable(self)
    }

    open spec fn polls_to(&self, next: &Self, r: Poll<Result<U, E>>) -> bool {
        MapOk::polls_to(self, next, r)
    }

    fn poll(&mut self, waker: &Waker) -> (r: Poll<Result<U, E>>) {
        MapOk::poll(self, waker)
    }
}

impl<Fut, F, T, E, U> MapOk<Fut, F> where
    Fut: Future<Output = Result<T, E>>,
    F: FnOnce(T) -> U,
 {
    /// Whether the future has completed.
    pub open spec fn terminated(&self) -> bool {
        self.f is None
    }

    /// Returns `true` if the future should no longer be polled.
    pub fn is_terminated(&self) -> (b: bool)
        ensures
            b == self.terminated(),
    {
        self.f.is_none()
    }
}

impl<Fut, F, T, E, U> FusedFuture for MapOk<Fut, F> where
    Fut: Future<Output = Result<T, E>>,
    F: FnOnce(T) -> U,
 {
    open spec fn terminated(&self) -> bool {
        MapOk::terminated(self)
    }

    fn is_terminated(&self) -> (b: bool) {
        MapOk::is_terminated(self)
    }

    proof fn lemma_fused(&self, next: &Self, r: Poll<Result<U, E>>) {
    }
}

} // verus!
