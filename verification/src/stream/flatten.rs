//! Flattening a stream of streams.

use vstd::prelude::*;
use std::task::Waker;
use crate::stream::FusedStream;
use crate::stream::Stream;
use crate::task::Poll;
use crate::task::poll_loop::goes_on;
use crate::task::poll_loop::lemma_no_round_goes_on;
use crate::task::poll_loop::PollLoop;
use crate::task::poll_loop::run_rounds;
use crate::task::poll_loop::runs_to;
use crate::task::YIELD_EVERY;

verus! {

/// Stream for the `flatten` combinator: yields the items of the streams that
/// the underlying stream yields, one stream after the other.
#[derive(Debug)]
pub struct Flatten<St: Stream> {
    pub stream: St,
    pub next: Option<St::Item>,
}

/// Whether every stream that a well-formed `St` may yield is well formed.
pub open spec fn yields_streams<St: Stream>() -> bool where St::Item: Stream {
    forall|from: St, to: St, inner: St::Item|
        from.wf() && #[trigger] from.yields(&to, Poll::Ready(Some(inner))) ==> inner.wf()
}

impl<St> Flatten<St> where St: Stream, St::Item: Stream {
    /// Creates a new `Flatten`; no inner stream is being drained yet.
    pub fn new(stream: St) -> (flatten: Flatten<St>)
        ensures
            flatten.stream == stream,
            flatten.next is None,
    {
        Flatten { stream, next: None }
    }

    /// A reference to the underlying stream.
    pub fn get_ref(&self) -> (stream: &St)
        ensures
            *stream == self.stream,
    {
        &self.stream
    }

    /// A mutable reference to the underlying stream.
    pub fn get_mut(&mut self) -> (stream: &mut St)
        ensures
            *stream == old(self).stream,
            final(self).stream == *final(stream),
            final(self).next == old(self).next,
    {
        &mut self.stream
    }

    /// Gives the underlying stream back. What is left of the inner stream that
    /// is being drained is lost.
    pub fn into_inner(self) -> (stream: St)
        ensures
            stream == self.stream,
    {
        self.stream
    }

    /// What a poll of the inner stream `inner` does to the round: an item ends
    /// the poll, and so does `Pending`; the end of the inner stream lets the
    /// poll go on with the next inner stream.
    pub open spec fn drains(
        inner: St::Item,
        next: &Self,
        out: Option<Poll<Option<<St::Item as Stream>::Item>>>,
    ) -> bool {
        match out {
            Some(Poll::Pending) => next.next is Some && inner.yields(&next.next->0, Poll::Pending),
            Some(Poll::Ready(Some(item))) => next.next is Some && inner.yields(
                &next.next->0,
                Poll::Ready(Some(item)),
            ),
            Some(Poll::Ready(None)) => false,
            None => next.next is None && exists|ended: St::Item| #[trigger]
                inner.yields(&ended, Poll::Ready(None)),
        }
    }

    /// What a round does when no inner stream is being drained: the stream is
    /// asked for the next inner stream, which is polled at once.
    pub open spec fn fetches(
        &self,
        next: &Self,
        out: Option<Poll<Option<<St::Item as Stream>::Item>>>,
    ) -> bool {
        ||| out == Some(Poll::<Option<<St::Item as Stream>::Item>>::Pending) && next.next is None
            && self.stream.yields(&next.stream, Poll::Pending)
        ||| out == Some(Poll::<Option<<St::Item as Stream>::Item>>::Ready(None)) && next.next
            is None && self.stream.yields(&next.stream, Poll::Ready(None))
        ||| exists|inner: St::Item| #[trigger]
            self.stream.yields(&next.stream, Poll::Ready(Some(inner))) && Self::drains(
                inner,
                next,
                out,
            )
    }

    /// Polls the inner stream `inner`.
    fn drain(&mut self, mut inner: St::Item, waker: &Waker) -> (out: Option<
        Poll<Option<<St::Item as Stream>::Item>>,
    >)
        requires
            inner.wf(),
        ensures
            Self::drains(inner, final(self), out),
            final(self).stream == old(self).stream,
            final(self).next is Some ==> final(self).next->0.wf(),
    {
        match inner.poll_next(waker) {
            Poll::Pending => {
                self.next = Some(inner);
                Some(Poll::Pending)
            },
            Poll::Ready(Some(item)) => {
                self.next = Some(inner);
                Some(Poll::Ready(Some(item)))
            },
            Poll::Ready(None) => {
                self.next = None;
                None
            },
        }
    }

    /// The states in which a round of the poll may begin.
    pub open spec fn loop_inv(&self) -> bool {
        &&& self.stream.wf()
        &&& self.next is Some ==> self.next->0.wf()
        &&& yields_streams::<St>()
    }

    /// What holds of the state that a poll leaves when it returns `Ready`.
    pub open spec fn ready_inv(&self) -> bool {
        self.loop_inv()
    }

    /// Whether a round that starts in `self` may end in `next`, with `out` as the
    /// result of the poll, or with `None` where the poll goes on.
    pub open spec fn round(
        &self,
        next: &Self,
        out: Option<Poll<Option<<St::Item as Stream>::Item>>>,
    ) -> bool {
        match self.next {
            Some(inner) => next.stream == self.stream && Self::drains(inner, next, out),
            None => self.fetches(next, out),
        }
    }

    /// One round: asks the stream for the next inner stream unless one is being
    /// drained, and polls the inner stream.
    pub fn step(&mut self, waker: &Waker) -> (out: Option<Poll<Option<<St::Item as Stream>::Item>>>)
        requires
            old(self).loop_inv(),
        ensures
            old(self).round(final(self), out),
            out matches Some(Poll::Ready(_)) ==> final(self).ready_inv(),
            !(out matches Some(Poll::Ready(_))) ==> final(self).loop_inv(),
    {
        match self.next.take() {
            Some(inner) => self.drain(inner, waker),
            None => {
                match self.stream.poll_next(waker) {
                    Poll::Pending => Some(Poll::Pending),
                    Poll::Ready(None) => Some(Poll::Ready(None)),
                    Poll::Ready(Some(inner)) => {
                        self.drain(inner, waker)
                    },
                }
            },
        }
    }

    /// The rounds of the poll are those that `loop_inv`, `ready_inv` and `round`
    /// describe.
    pub proof fn lemma_poll_loop(&self, next: &Self, out: Option<Poll<Option<<St::Item as Stream>::Item>>>)
        ensures
            PollLoop::loop_inv(self) == self.loop_inv(),
            PollLoop::ready_inv(self) == self.ready_inv(),
            PollLoop::round(self, next, out) == self.round(next, out),
    {
    }
}

impl<St> PollLoop for Flatten<St> where St: Stream, St::Item: Stream {
    type Ready = Option<<St::Item as Stream>::Item>;

    open spec fn loop_inv(&self) -> bool {
        Flatten::loop_inv(self)
    }

    open spec fn ready_inv(&self) -> bool {
        Flatten::ready_inv(self)
    }

    open spec fn round(
        &self,
        next: &Self,
        out: Option<Poll<Option<<St::Item as Stream>::Item>>>,
    ) -> bool {
        Flatten::round(self, next, out)
    }

    fn step(&mut self, waker: &Waker) -> (out: Option<Poll<Option<<St::Item as Stream>::Item>>>) {
        Flatten::step(self, waker)
    }
}

impl<St> Flatten<St> where St: Stream, St::Item: Stream {
    /// The states in which the stream may be polled.
    pub open spec fn wf(&self) -> bool {
        self.loop_inv()
    }

    /// Whether a poll that starts in `self` may end in `next` and return `r`.
    pub open spec fn yields(&self, next: &Self, r: Poll<Option<<St::Item as Stream>::Item>>) -> bool {
        runs_to(*self, *next, r)
    }

    /// Drains inner streams until one yields an item or is pending, or the
    /// underlying stream is pending or has ended.
    pub fn poll_next(&mut self, waker: &Waker) -> (r: Poll<Option<<St::Item as Stream>::Item>>)
        requires
            old(self).wf(),
        ensures
            final(self).wf(),
            old(self).yields(final(self), r),
    {
        run_rounds(self, waker)
    }

    /// As a `Stream`, this polls as `wf` and `yields` say.
    pub proof fn lemma_stream(&self, next: &Self, r: Poll<Option<<St::Item as Stream>::Item>>)
        ensures
            Stream::wf(self) == self.wf(),
            Stream::yields(self, next, r) == self.yields(next, r),
    {
    }
}

impl<St> Stream for Flatten<St> where St: Stream, St::Item: Stream {
    type Item = <St::Item as Stream>::Item;

    open spec fn wf(&self) -> bool {
        Flatten::wf(self)
    }

    open spec fn yields(&self, next: &Self, r: Poll<Option<<St::Item as Stream>::Item>>) -> bool {
        Flatten::yields(self, next, r)
    }

    fn poll_next(&mut self, waker: &Waker) -> (r: Poll<Option<<St::Item as Stream>::Item>>) {
        Flatten::poll_next(self, waker)
    }
}

impl<St> Flatten<St> where St: FusedStream, St::Item: Stream {
    /// Whether the stream has ended.
    pub open spec fn terminated(&self) -> bool {
        self.next is None && self.stream.terminated()
    }

    /// Returns `true` if the stream should no longer be polled.
    pub fn is_terminated(&self) -> (b: bool)
        ensures
            b == self.terminated(),
    {
        self.next.is_none() && self.stream.is_terminated()
    }
}

impl<St> FusedStream for Flatten<St> where St: FusedStream, St::Item: Stream {
    open spec fn terminated(&self) -> bool {
        Flatten::terminated(self)
    }

    fn is_terminated(&self) -> (b: bool) {
        Flatten::is_terminated(self)
    }

    proof fn lemma_fused(&self, next: &Self, r: Poll<Option<<St::Item as Stream>::Item>>) {
        let (mid, rounds) = choose|mid: Self, rounds: nat|
            {
                &&& rounds <= YIELD_EVERY
                &&& #[trigger] goes_on(*self, mid, rounds)
                &&& {
                    ||| mid.round(next, Some(r))
                    ||| rounds == YIELD_EVERY && r is Pending && *next == mid
                }
            };
        if r == Poll::<Option<<St::Item as Stream>::Item>>::Ready(None) {
            mid.stream.lemma_fused(&next.stream, Poll::Ready(None));
        }
        if self.terminated() {
            assert forall|after: Self| !#[trigger] self.round(&after, None) by {
                if self.round(&after, None) {
                    let inner = choose|inner: St::Item| #[trigger]
                        self.stream.yields(&after.stream, Poll::Ready(Some(inner)))
                            && Self::drains(inner, &after, None);
                    self.stream.lemma_fused(&after.stream, Poll::Ready(Some(inner)));
                }
            }
            lemma_no_round_goes_on(*self, mid, rounds);
            if self.stream.yields(&next.stream, Poll::Pending) {
                self.stream.lemma_fused(&next.stream, Poll::Pending);
            }
            if exists|inner: St::Item| self.stream.yields(&next.stream, Poll::Ready(Some(inner))) {
                let inner = choose|inner: St::Item|
                    self.stream.yields(&next.stream, Poll::Ready(Some(inner)));
                self.stream.lemma_fused(&next.stream, Poll::Ready(Some(inner)));
            }
        }
    }
}

} // verus!
