//! Folding the items of a fallible stream with a fallible step.

use vstd::prelude::*;
use std::task::Waker;
use crate::future::FusedFuture;
use crate::future::Future;
use crate::future::try_completes_with;
use crate::future::TryFuture;
use crate::task::Poll;
use crate::task::poll_loop::PollLoop;
use crate::task::poll_loop::run_rounds;
use crate::task::poll_loop::runs_to;
use crate::try_stream::TryStream;

verus! {

/// Future for the `try_fold` combinator: feeds an accumulator and each item
/// of a stream to a function, and goes on with what the function's future
/// resolves to. The first error, of the stream or of a step, ends the fold.
#[derive(Debug)]
pub struct TryFold<St, Fut, T, F> {
    pub stream: St,
    pub f: F,
    pub accum: Option<T>,
    pub future: Option<Fut>,
}

impl<St, Fut, T, F> TryFold<St, Fut, T, F> where
    St: TryStream,
    F: FnMut(T, St::Ok) -> Fut,
    Fut: TryFuture<Ok = T, Error = St::Error>,
 {
    /// Creates a new `TryFold` that starts from the accumulator `t`.
    pub fn new(stream: St, f: F, t: T) -> (fold: TryFold<St, Fut, T, F>)
        ensures
            fold.stream == stream,
            fold.f == f,
            fold.accum == Some(t),
            fold.future is None,
    {
        TryFold { stream, f, accum: Some(t), future: None }
    }

    /// Whether neither an accumulator nor a step is held: the fold has ended.
    pub open spec fn ended(&self) -> bool {
        self.accum is None && self.future is None
    }

    /// What a round does with the accumulator `accum` in hand: the stream is
    /// asked for an item. An item starts a step and lets the poll go on, an
    /// error ends the fold with it, and the end of the stream ends the fold
    /// with the accumulator.
    pub open spec fn folds(
        &self,
        accum: T,
        next: &Self,
        out: Option<Poll<Result<T, St::Error>>>,
    ) -> bool {
        match out {
            Some(Poll::Pending) => next.accum == Some(accum) && next.future is None
                && self.stream.try_yields(&next.stream, Poll::Pending),
            Some(Poll::Ready(Ok(total))) => total == accum && next.ended()
                && self.stream.try_yields(&next.stream, Poll::Ready(None)),
            Some(Poll::Ready(Err(e))) => next.ended() && self.stream.try_yields(
                &next.stream,
                Poll::Ready(Some(Err(e))),
            ),
            None => next.accum is None && next.future is Some && exists|item: St::Ok|
                {
                    &&& self.stream.try_yields(&next.stream, Poll::Ready(Some(Ok(item))))
                    &&& #[trigger] call_ensures(self.f, (accum, item), next.future->0)
                },
        }
    }

    /// What a round does while a step is running: a pending step ends the
    /// poll, a failed step ends the fold, and what a successful step resolves
    /// to is the accumulator with which the round goes on.
    pub open spec fn steps(
        &self,
        fut: Fut,
        next: &Self,
        out: Option<Poll<Result<T, St::Error>>>,
    ) -> bool {
        ||| out == Some(Poll::<Result<T, St::Error>>::Pending) && next.future is Some
            && fut.try_polls_to(&next.future->0, Poll::Pending) && next.accum is None
            && next.stream == self.stream
        ||| exists|e: St::Error|
            {
                &&& #[trigger] try_completes_with(fut, Err(e))
                &&& out == Some(Poll::<Result<T, St::Error>>::Ready(Err(e)))
                &&& next.ended()
                &&& next.stream == self.stream
            }
        ||| exists|accum: T| #[trigger]
            try_completes_with(fut, Ok(accum)) && self.folds(accum, next, out)
    }

    /// Asks the stream for the next item, with the accumulator `accum` in
    /// hand.
    fn fold(&mut self, accum: T, waker: &Waker) -> (out: Option<Poll<Result<T, St::Error>>>)
        requires
            old(self).stream.try_wf(),
            old(self).closures_fit(),
            old(self).ended(),
        ensures
            old(self).folds(accum, final(self), out),
            final(self).f == old(self).f,
            !(out matches Some(Poll::Ready(_))) ==> final(self).loop_inv(),
    {
        let ghost before = *self;
        match self.stream.try_poll_next(waker) {
            Poll::Pending => {
                self.accum = Some(accum);
                Some(Poll::Pending)
            },
            Poll::Ready(None) => {
                Some(Poll::Ready(Ok(accum)))
            },
            Poll::Ready(Some(Err(e))) => {
                Some(Poll::Ready(Err(e)))
            },
            Poll::Ready(Some(Ok(item))) => {
                let fut = (self.f)(accum, item);
                self.future = Some(fut);
                assert(call_ensures(before.f, (accum, item), self.future->0));
                None
            },
        }
    }

    /// Whether the function may be called with every accumulator and item,
    /// and builds only futures that may be polled.
    pub open spec fn closures_fit(&self) -> bool {
        &&& forall|accum: T, item: St::Ok| #[trigger] call_requires(self.f, (accum, item))
        &&& forall|accum: T, item: St::Ok, fut: Fut| #[trigger]
            call_ensures(self.f, (accum, item), fut) ==> fut.try_pollable()
    }

    /// The states in which a round of the poll may begin.
    pub open spec fn loop_inv(&self) -> bool {
        &&& self.stream.try_wf()
        &&& self.closures_fit()
        &&& (self.accum is Some) != (self.future is Some)
        &&& self.future is Some ==> self.future->0.try_pollable()
    }

    /// What holds of the state that a poll leaves when it returns `Ready`.
    pub open spec fn ready_inv(&self) -> bool {
        self.ended()
    }

    /// Whether a round that starts in `self` may end in `next`, with `out` as the
    /// result of the poll, or with `None` where the poll goes on.
    pub open spec fn round(&self, next: &Self, out: Option<Poll<Result<T, St::Error>>>) -> bool {
        &&& next.f == self.f
        &&& match self.accum {
            Some(accum) => self.folds(accum, next, out),
            None => self.future is Some && self.steps(self.future->0, next, out),
        }
    }

    /// One round: polls the step that is running, if any, and then asks the stream
    /// for the next item to fold in.
    pub fn step(&mut self, waker: &Waker) -> (out: Option<Poll<Result<T, St::Error>>>)
        requires
            old(self).loop_inv(),
        ensures
            old(self).round(final(self), out),
            out matches Some(Poll::Ready(_)) ==> final(self).ready_inv(),
            !(out matches Some(Poll::Ready(_))) ==> final(self).loop_inv(),
    {
        let ghost before = *self;
        match self.accum.take() {
            Some(accum) => {
                self.fold(accum, waker)
            },
            None => {
                let mut fut = self.future.take().unwrap();
                match fut.try_poll(waker) {
                    Poll::Pending => {
                        self.future = Some(fut);
                        Some(Poll::Pending)
                    },
                    Poll::Ready(Err(e)) => {
                        assert(try_completes_with(before.future->0, Err(e)));
                        Some(Poll::Ready(Err(e)))
                    },
                    Poll::Ready(Ok(accum)) => {
                        assert(try_completes_with(before.future->0, Ok(accum)));
                        self.fold(accum, waker)
                    },
                }
            },
        }
    }

    /// The rounds of the poll are those that `loop_inv`, `ready_inv` and `round`
    /// describe.
    pub proof fn lemma_poll_loop(&self, next: &Self, out: Option<Poll<Result<T, St::Error>>>)
        ensures
            PollLoop::loop_inv(self) == self.loop_inv(),
            PollLoop::ready_inv(self) == self.ready_inv(),
            PollLoop::round(self, next, out) == self.round(next, out),
    {
    }
}

impl<St, Fut, T, F> PollLoop for TryFold<St, Fut, T, F> where
    St: TryStream,
    F: FnMut(T, St::Ok) -> Fut,
    Fut: TryFuture<Ok = T, Error = St::Error>,
 {
    type Ready = Result<T, St::Error>;

    open spec fn loop_inv(&self) -> bool {
        TryFold::loop_inv(self)
    }

    open spec fn ready_inv(&self) -> bool {
        TryFold::ready_inv(self)
    }

    open spec fn round(&self, next: &Self, out: Option<Poll<Result<T, St::Error>>>) -> bool {
        TryFold::round(self, next, out)
    }

    fn step(&mut self, waker: &Waker) -> (out: Option<Poll<Result<T, St::Error>>>) {
        TryFold::step(self, waker)
    }
}

impl<St, Fut, T, F> TryFold<St, Fut, T, F> where
    St: TryStream,
    F: FnMut(T, St::Ok) -> Fut,
    Fut: TryFuture<Ok = T, Error = St::Error>,
 {
    /// The states in which the future may be polled.
    pub open spec fn pollable(&self) -> bool {
        self.loop_inv()
    }

    /// Whether a poll that starts in `self` may end in `next` and return `r`.
    pub open spec fn polls_to(&self, next: &Self, r: Poll<Result<T, St::Error>>) -> bool {
        runs_to(*self, *next, r)
    }

    /// Folds items into the accumulator until the stream or a step is
    /// pending, an error comes, or the stream has ended.
    pub fn poll(&mut self, waker: &Waker) -> (r: Poll<Result<T, St::Error>>)
        requires
            old(self).pollable(),
        ensures
            old(self).polls_to(final(self), r),
            r is Pending ==> final(self).pollable(),
    {
        run_rounds(self, waker)
    }

    /// As a `Future`, this polls as `pollable` and `polls_to` say.
    pub proof fn lemma_future(&self, next: &Self, r: Poll<Result<T, St::Error>>)
        ensures
            Future::pollable(self) == self.pollable(),
            Future::polls_to(self, next, r) == self.polls_to(next, r),
    {
    }
}

impl<St, Fut, T, F> Future for TryFold<St, Fut, T, F> where
    St: TryStream,
    F: FnMut(T, St::Ok) -> Fut,
    Fut: TryFuture<Ok = T, Error = St::Error>,
 {
    type Output = Result<T, St::Error>;

    open spec fn pollable(&self) -> bool {
        TryFold::pollable(self)
    }

    open spec fn polls_to(&self, next: &Self, r: Poll<Result<T, St::Error>>) -> bool {
        TryFold::polls_to(self, next, r)
    }

    fn poll(&mut self, waker: &Waker) -> (r: Poll<Result<T, St::Error>>) {
        TryFold::poll(self, waker)
    }
}

impl<St, Fut, T, F> TryFold<St, Fut, T, F> where
    St: TryStream,
    F: FnMut(T, St::Ok) -> Fut,
    Fut: TryFuture<Ok = T, Error = St::Error>,
 {
    /// Whether the future has completed.
    pub open spec fn terminated(&self) -> bool {
        self.ended()
    }

    /// Returns `true` if the future should no longer be polled.
    pub fn is_terminated(&self) -> (b: bool)
        ensures
            b == self.terminated(),
    {
        self.accum.is_none() && self.future.is_none()
    }
}

impl<St, Fut, T, F> FusedFuture for TryFold<St, Fut, T, F> where
    St: TryStream,
    F: FnMut(T, St::Ok) -> Fut,
    Fut: TryFuture<Ok = T, Error = St::Error>,
 {
    open spec fn terminated(&self) -> bool {
        TryFold::terminated(self)
    }

    fn is_terminated(&self) -> (b: bool) {
        TryFold::is_terminated(self)
    }

    proof fn lemma_fused(&self, next: &Self, r: Poll<Result<T, St::Error>>) {
    }
}

} // verus!
