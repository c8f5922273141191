//! Collecting the items of a stream.

use vstd::prelude::*;
use std::task::Waker;
use crate::future::FusedFuture;
use crate::future::Future;
use crate::stream::FusedStream;
use crate::stream::Stream;
use crate::task::Poll;
use crate::task::poll_loop::goes_on;
use crate::task::poll_loop::PollLoop;
use crate::task::poll_loop::run_rounds;
use crate::task::poll_loop::runs_to;
use crate::task::YIELD_EVERY;

verus! {

/// Future for the `collect` combinator: gathers the items of a stream in a
/// vector and resolves to the vector when the stream has ended.
#[derive(Debug)]
pub struct Collect<St: Stream> {
    pub stream: St,
    pub collection: Vec<St::Item>,
}

impl<St: Stream> Collect<St> {
    /// Takes what has been collected and leaves an empty collection.
    pub fn finish(&mut self) -> (collection: Vec<St::Item>)
        ensures
            collection@ == old(self).collection@,
            final(self).collection@ == Seq::<St::Item>::empty(),
            final(self).stream == old(self).stream,
    {
        let mut collection = Vec::new();
        std::mem::swap(&mut self.collection, &mut collection);
        collection
    }

    /// Creates a new `Collect` with nothing collected yet.
    pub fn new(stream: St) -> (collect: Collect<St>)
        ensures
            collect.stream == stream,
            collect.collection@ == Seq::<St::Item>::empty(),
    {
        Collect { stream, collection: Vec::new() }
    }

    /// The states in which a round of the poll may begin.
    pub open spec fn loop_inv(&self) -> bool {
        self.stream.wf()
    }

    /// What holds of the state that a poll leaves when it returns `Ready`.
    pub open spec fn ready_inv(&self) -> bool {
        self.loop_inv()
    }

    /// Whether a round that starts in `self` may end in `next`, with `out` as the
    /// result of the poll, or with `None` where the poll goes on.
    pub open spec fn round(&self, next: &Self, out: Option<Poll<Vec<St::Item>>>) -> bool {
        match out {
            Some(Poll::Pending) => next.collection@ == self.collection@ && self.stream.yields(
                &next.stream,
                Poll::Pending,
            ),
            Some(Poll::Ready(all)) => all@ == self.collection@ && next.collection@
                == Seq::<St::Item>::empty() && self.stream.yields(&next.stream, Poll::Ready(None)),
            None => exists|item: St::Item|
                {
                    &&& #[trigger] self.stream.yields(&next.stream, Poll::Ready(Some(item)))
                    &&& next.collection@ == self.collection@.push(item)
                },
        }
    }

    /// One round: asks the stream for an item and adds it to the collection.
    pub fn step(&mut self, waker: &Waker) -> (out: Option<Poll<Vec<St::Item>>>)
        requires
            old(self).loop_inv(),
        ensures
            old(self).round(final(self), out),
            out matches Some(Poll::Ready(_)) ==> final(self).ready_inv(),
            !(out matches Some(Poll::Ready(_))) ==> final(self).loop_inv(),
    {
        let ghost before = *self;
        match self.stream.poll_next(waker) {
            Poll::Pending => Some(Poll::Pending),
            Poll::Ready(Some(item)) => {
                self.collection.push(item);
                assert(before.stream.yields(&self.stream, Poll::Ready(Some(item))));
                None
            },
            Poll::Ready(None) => Some(Poll::Ready(self.finish())),
        }
    }

    /// The rounds of the poll are those that `loop_inv`, `ready_inv` and `round`
    /// describe.
    pub proof fn lemma_poll_loop(&self, next: &Self, out: Option<Poll<Vec<St::Item>>>)
        ensures
            PollLoop::loop_inv(self) == self.loop_inv(),
            PollLoop::ready_inv(self) == self.ready_inv(),
            PollLoop::round(self, next, out) == self.round(next, out),
    {
    }
}

impl<St: Stream> PollLoop for Collect<St> {
    type Ready = Vec<St::Item>;

    open spec fn loop_inv(&self) -> bool {
        Collect::loop_inv(self)
    }

    open spec fn ready_inv(&self) -> bool {
        Collect::ready_inv(self)
    }

    open spec fn round(&self, next: &Self, out: Option<Poll<Vec<St::Item>>>) -> bool {
        Collect::round(self, next, out)
    }

    fn step(&mut self, waker: &Waker) -> (out: Option<Poll<Vec<St::Item>>>) {
        Collect::step(self, waker)
    }
}

impl<St: Stream> Collect<St> {
    /// The states in which the future may be polled.
    pub open spec fn pollable(&self) -> bool {
        self.loop_inv()
    }

    /// Whether a poll that starts in `self` may end in `next` and return `r`.
    pub open spec fn polls_to(&self, next: &Self, r: Poll<Vec<St::Item>>) -> bool {
        runs_to(*self, *next, r)
    }

    /// Collects items until the stream is pending or has ended.
    pub fn poll(&mut self, waker: &Waker) -> (r: Poll<Vec<St::Item>>)
        requires
            old(self).pollable(),
        ensures
            old(self).polls_to(final(self), r),
            r is Pending ==> final(self).pollable(),
    {
        run_rounds(self, waker)
    }

    /// As a `Future`, this polls as `pollable` and `polls_to` say.
    pub proof fn lemma_future(&self, next: &Self, r: Poll<Vec<St::Item>>)
        ensures
            Future::pollable(self) == self.pollable(),
            Future::polls_to(self, next, r) == self.polls_to(next, r),
    {
    }
}

impl<St: Stream> Future for Collect<St> {
    type Output = Vec<St::Item>;

    open spec fn pollable(&self) -> bool {
        Collect::pollable(self)
    }

    open spec fn polls_to(&self, next: &Self, r: Poll<Vec<St::Item>>) -> bool {
        Collect::polls_to(self, next, r)
    }

    fn poll(&mut self, waker: &Waker) -> (r: Poll<Vec<St::Item>>) {
        Collect::poll(self, waker)
    }
}

impl<St: FusedStream> Collect<St> {
    /// Whether the future has completed.
    pub open spec fn terminated(&self) -> bool {
        self.stream.terminated()
    }

    /// Returns `true` if the future should no longer be polled.
    pub fn is_terminated(&self) -> (b: bool)
        ensures
            b == self.terminated(),
    {
        self.stream.is_terminated()
    }
}

impl<St: FusedStream> FusedFuture for Collect<St> {
    open spec fn terminated(&self) -> bool {
        Collect::terminated(self)
    }

    fn is_terminated(&self) -> (b: bool) {
        Collect::is_terminated(self)
    }

    proof fn lemma_fused(&self, next: &Self, r: Poll<Vec<St::Item>>) {
        if r is Ready {
            let (mid, rounds) = choose|mid: Self, rounds: nat|
                {
                    &&& rounds <= YIELD_EVERY
                    &&& #[trigger] goes_on(*self, mid, rounds)
                    &&& {
                        ||| mid.round(next, Some(r))
                        ||| rounds == YIELD_EVERY && r is Pending && *next == mid
                    }
                };
            mid.stream.lemma_fused(&next.stream, Poll::Ready(None));
        }
    }
}

} // verus!
