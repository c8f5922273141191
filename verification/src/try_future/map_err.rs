//! Mapping the error of a future.

use vstd::prelude::*;
use std::task::Waker;
use crate::future::FusedFuture;
use crate::future::Future;
use crate::task::Poll;

verus! {

/// Future for the `map_err` combinator: applies a function to the error and
/// passes a success value on.
#[derive(Debug)]
pub struct MapErr<Fut, F> {
    pub future: Fut,
    pub f: Option<F>,
}

impl<Fut, F> MapErr<Fut, F> {
    /// Creates a new `MapErr`.
    pub fn new(future: Fut, f: F) -> (map_err: MapErr<Fut, F>)
        ensures
            map_err.future == future,
            map_err.f == Some(f),
    {
        MapErr { future, f: Some(f) }
    }
}

impl<Fut, F, T, E, U> MapErr<Fut, F> where
    Fut: Future<Output = Result<T, E>>,
    F: FnOnce(E) -> U,
 {
    /// The states in which the future may be polled.
    pub open spec fn pollable(&self) -> bool {
        &&& self.future.pollable()
        &&& self.f is Some
        &&& forall|e: E| #[trigger] call_requires(self.f->0, (e,))
    }

    /// Whether a poll that starts in `self` may end in `next` and return `r`.
    pub open spec fn polls_to(&self, next: &Self, r: Poll<Result<T, U>>) -> bool {
        match r {
            Poll::Pending => self.future.polls_to(&next.future, Poll::Pending) && next.f == self.f,
            Poll::Ready(Ok(ok)) => self.future.polls_to(&next.future, Poll::Ready(Ok(ok)))
                && next.f is None,
            Poll::Ready(Err(mapped)) => next.f is None && exists|e: E|
                {
                    &&& #[trigger] self.future.polls_to(&next.future, Poll::Ready(Err(e)))
                    &&& call_ensures(self.f->0, (e,), mapped)
                },
        }
    }

    /// Polls the inner future; once it is ready, applies the function to an error
    /// and passes a success value on.
    pub fn poll(&mut self, waker: &Waker) -> (r: Poll<Result<T, U>>)
        requires
            old(self).pollable(),
        ensures
            old(self).polls_to(final(self), r),
            r is Pending ==> final(self).pollable(),
    {
        let ghost before = *self;
        match self.future.poll(waker) {
            Poll::Pending => Poll::Pending,
            Poll::Ready(result) => {
                let f = self.f.take().unwrap();
                match result {
                    Ok(ok) => Poll::Ready(Ok(ok)),
                    Err(e) => {
                        let mapped = f(e);
                        let r = Poll::Ready(Err(mapped));
                        assert(before.future.polls_to(&self.future, Poll::Ready(Err(e))));
                        r
                    },
                }
            },
        }
    }

    /// As a `Future`, this polls as `pollable` and `polls_to` say.
    pub proof fn lemma_future(&self, next: &Self, r: Poll<Result<T, U>>)
        ensures
            Future::pollable(self) == self.pollable(),
            Future::polls_to(self, next, r) == self.polls_to(next, r),
    {
    }
}

impl<Fut, F, T, E, U> Future for MapErr<Fut, F> where
    Fut: Future<Output = Result<T, E>>,
    F: FnOnce(E) -> U,
 {
    type Output = Result<T, U>;

    open spec fn pollable(&self) -> bool {
        MapErr::pollable(self)
    }

    open spec fn polls_to(&self, next: &Self, r: Poll<Result<T, U>>) -> bool {
        MapErr::polls_to(self, next, r)
    }

    fn poll(&mut self, waker: &Waker) -> (r: Poll<Result<T, U>>) {
        MapErr::poll(self, waker)
    }
}

impl<Fut, F, T, E, U> MapErr<Fut, F> where
    Fut: Future<Output = Result<T, E>>,
    F: FnOnce(E) -> U,
 {
    /// Whether the future has completed.
    pub open spec fn terminated(&self) -> bool {
        self.f is None
    }

    /// Returns `true` if the future should no longer be polled.
    pub fn is_terminated(&self) -> (b: bool)
        ensures
            b == self.terminated(),
    {
        self.f.is_none()
    }
}

impl<Fut, F, T, E, U> FusedFuture for MapErr<Fut, F> where
    Fut: Future<Output = Result<T, E>>,
    F: FnOnce(E) -> U,
 {
    open spec fn terminated(&self) -> bool {
        MapErr::terminated(self)
    }

    fn is_terminated(&self) -> (b: bool) {
        MapErr::is_terminated(self)
    }

    proof fn lemma_fused(&self, next: &Self, r: Poll<Result<T, U>>) {
    }
}

} // verus!
