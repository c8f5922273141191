//! Running a future for every item of a stream, one after the other.

use vstd::prelude::*;
use std::task::Waker;
use crate::future::completes_with;
use crate::future::FusedFuture;
use crate::future::Future;
use crate::stream::FusedStream;
use crate::stream::Stream;
use crate::task::Poll;
use crate::task::poll_loop::goes_on;
use crate::task::poll_loop::PollLoop;
use crate::task::poll_loop::run_rounds;
use crate::task::poll_loop::runs_to;
use crate::task::YIELD_EVERY;

verus! {

/// Future for the `for_each` combinator: hands each item of a stream to a
/// function and runs the future that the function builds to completion before
/// it asks for the next item.
#[derive(Debug)]
pub struct ForEach<St, Fut, F> {
    pub stream: St,
    pub f: F,
    pub future: Option<Fut>,
}

impl<St, Fut, F> ForEach<St, Fut, F> where
    St: Stream,
    F: FnMut(St::Item) -> Fut,
    Fut: Future<Output = ()>,
 {
    /// Creates a new `ForEach`; no future is running yet.
    pub fn new(stream: St, f: F) -> (for_each: ForEach<St, Fut, F>)
        ensures
            for_each.stream == stream,
            for_each.f == f,
            for_each.future is None,
    {
        ForEach { stream, f, future: None }
    }

    /// What a round does once no future is running: the stream is asked for
    /// an item. An item starts a future and lets the poll go on; the end of
    /// the stream ends the poll.
    pub open spec fn fetches(&self, next: &Self, out: Option<Poll<()>>) -> bool {
        match out {
            Some(Poll::Pending) => next.future is None && self.stream.yields(
                &next.stream,
                Poll::Pending,
            ),
            Some(Poll::Ready(_)) => next.future is None && self.stream.yields(
                &next.stream,
                Poll::Ready(None),
            ),
            None => next.future is Some && exists|item: St::Item|
                {
                    &&& self.stream.yields(&next.stream, Poll::Ready(Some(item)))
                    &&& #[trigger] call_ensures(self.f, (item,), next.future->0)
                },
        }
    }

    /// Asks the stream for the next item and starts the future for it.
    fn fetch(&mut self, waker: &Waker) -> (out: Option<Poll<()>>)
        requires
            old(self).loop_inv(),
            old(self).future is None,
        ensures
            old(self).fetches(final(self), out),
            final(self).f == old(self).f,
            final(self).loop_inv(),
    {
        let ghost before = *self;
        match self.stream.poll_next(waker) {
            Poll::Pending => Some(Poll::Pending),
            Poll::Ready(None) => Some(Poll::Ready(())),
            Poll::Ready(Some(item)) => {
                let fut = (self.f)(item);
                self.future = Some(fut);
                assert(call_ensures(before.f, (item,), self.future->0));
                None
            },
        }
    }

    /// The states in which a round of the poll may begin.
    pub open spec fn loop_inv(&self) -> bool {
        &&& self.stream.wf()
        &&& self.future is Some ==> self.future->0.pollable()
        &&& forall|item: St::Item| #[trigger] call_requires(self.f, (item,))
        &&& forall|item: St::Item, fut: Fut| #[trigger]
            call_ensures(self.f, (item,), fut) ==> fut.pollable()
    }

    /// What holds of the state that a poll leaves when it returns `Ready`.
    pub open spec fn ready_inv(&self) -> bool {
        self.loop_inv()
    }

    /// Whether a round that starts in `self` may end in `next`, with `out` as the
    /// result of the poll, or with `None` where the poll goes on.
    pub open spec fn round(&self, next: &Self, out: Option<Poll<()>>) -> bool {
        &&& next.f == self.f
        &&& match self.future {
            Some(fut) => {
                ||| out == Some(Poll::<()>::Pending) && next.future is Some && fut.polls_to(
                    &next.future->0,
                    Poll::Pending,
                ) && next.stream == self.stream
                ||| completes_with(fut, ()) && (ForEach::<St, Fut, F> {
                    stream: self.stream,
                    f: self.f,
                    future: None,
                }).fetches(next, out)
            },
            None => self.fetches(next, out),
        }
    }

    /// One round: polls the future that is running, if any, and then asks the
    /// stream for the next item.
    pub fn step(&mut self, waker: &Waker) -> (out: Option<Poll<()>>)
        requires
            old(self).loop_inv(),
        ensures
            old(self).round(final(self), out),
            out matches Some(Poll::Ready(_)) ==> final(self).ready_inv(),
            !(out matches Some(Poll::Ready(_))) ==> final(self).loop_inv(),
    {
        match self.future.take() {
            Some(mut fut) => {
                match fut.poll(waker) {
                    Poll::Pending => {
                        self.future = Some(fut);
                        Some(Poll::Pending)
                    },
                    Poll::Ready(unit) => {
                        assert(unit == ());
                        self.fetch(waker)
                    },
                }
            },
            None => self.fetch(waker),
        }
    }

    /// The rounds of the poll are those that `loop_inv`, `ready_inv` and `round`
    /// describe.
    pub proof fn lemma_poll_loop(&self, next: &Self, out: Option<Poll<()>>)
        ensures
            PollLoop::loop_inv(self) == self.loop_inv(),
            PollLoop::ready_inv(self) == self.ready_inv(),
            PollLoop::round(self, next, out) == self.round(next, out),
    {
    }
}

impl<St, Fut, F> PollLoop for ForEach<St, Fut, F> where
    St: Stream,
    F: FnMut(St::Item) -> Fut,
    Fut: Future<Output = ()>,
 {
    type Ready = ();

    open spec fn loop_inv(&self) -> bool {
        ForEach::loop_inv(self)
    }

    open spec fn ready_inv(&self) -> bool {
        ForEach::ready_inv(self)
    }

    open spec fn round(&self, next: &Self, out: Option<Poll<()>>) -> bool {
        ForEach::round(self, next, out)
    }

    fn step(&mut self, waker: &Waker) -> (out: Option<Poll<()>>) {
        ForEach::step(self, waker)
    }
}

impl<St, Fut, F> ForEach<St, Fut, F> where
    St: Stream,
    F: FnMut(St::Item) -> Fut,
    Fut: Future<Output = ()>,
 {
    /// The states in which the future may be polled.
    pub open spec fn pollable(&self) -> bool {
        self.loop_inv()
    }

    /// Whether a poll that starts in `self` may end in `next` and return `r`.
    pub open spec fn polls_to(&self, next: &Self, r: Poll<()>) -> bool {
        runs_to(*self, *next, r)
    }

    /// Runs the futures for the items one after the other until one is
    /// pending, the stream is pending, or the stream has ended.
    pub fn poll(&mut self, waker: &Waker) -> (r: Poll<()>)
        requires
            old(self).pollable(),
        ensures
            old(self).polls_to(final(self), r),
            r is Pending ==> final(self).pollable(),
    {
        run_rounds(self, waker)
    }

    /// As a `Future`, this polls as `pollable` and `polls_to` say.
    pub proof fn lemma_future(&self, next: &Self, r: Poll<()>)
        ensures
            Future::pollable(self) == self.pollable(),
            Future::polls_to(self, next, r) == self.polls_to(next, r),
    {
    }
}

impl<St, Fut, F> Future for ForEach<St, Fut, F> where
    St: Stream,
    F: FnMut(St::Item) -> Fut,
    Fut: Future<Output = ()>,
 {
    type Output = ();

    open spec fn pollable(&self) -> bool {
        ForEach::pollable(self)
    }

    open spec fn polls_to(&self, next: &Self, r: Poll<()>) -> bool {
        ForEach::polls_to(self, next, r)
    }

    fn poll(&mut self, waker: &Waker) -> (r: Poll<()>) {
        ForEach::poll(self, waker)
    }
}

impl<St, Fut, F> ForEach<St, Fut, F> where
    St: FusedStream,
    F: FnMut(St::Item) -> Fut,
    Fut: Future<Output = ()>,
 {
    /// Whether the future has completed.
    pub open spec fn terminated(&self) -> bool {
        self.future is None && self.stream.terminated()
    }

    /// Returns `true` if the future should no longer be polled.
    pub fn is_terminated(&self) -> (b: bool)
        ensures
            b == self.terminated(),
    {
        self.future.is_none() && self.stream.is_terminated()
    }
}

impl<St, Fut, F> FusedFuture for ForEach<St, Fut, F> where
    St: FusedStream,
    F: FnMut(St::Item) -> Fut,
    Fut: Future<Output = ()>,
 {
    open spec fn terminated(&self) -> bool {
        ForEach::terminated(self)
    }

    fn is_terminated(&self) -> (b: bool) {
        ForEach::is_terminated(self)
    }

    proof fn lemma_fused(&self, next: &Self, r: Poll<()>) {
        if r is Ready {
            let (mid, rounds) = choose|mid: Self, rounds: nat|
                {
                    &&& rounds <= YIELD_EVERY
                    &&& #[trigger] goes_on(*self, mid, rounds)
                    &&& {
                        ||| mid.round(next, Some(r))
                        ||| rounds == YIELD_EVERY && r is Pending && *next == mid
                    }
                };
            mid.stream.lemma_fused(&next.stream, Poll::Ready(None));
        }
    }
}

} // verus!
