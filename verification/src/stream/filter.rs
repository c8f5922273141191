//! Keeping the items of a stream that a predicate accepts.

use vstd::prelude::*;
use std::task::Waker;
use crate::future::completes_with;
use crate::future::Future;
use crate::stream::FusedStream;
use crate::stream::Stream;
use crate::task::Poll;
use crate::task::poll_loop::goes_on;
use crate::task::poll_loop::lemma_no_round_goes_on;
use crate::task::poll_loop::PollLoop;
use crate::task::poll_loop::run_rounds;
use crate::task::poll_loop::runs_to;
use crate::task::YIELD_EVERY;

verus! {

/// Stream for the `filter` combinator: asks an asynchronous predicate about
/// each item and yields the items for which the predicate resolves to `true`.
#[derive(Debug)]
pub struct Filter<St: Stream, Fut, F> {
    pub stream: St,
    pub f: F,
    pub pending_fut: Option<Fut>,
    pub pending_item: Option<St::Item>,
}

impl<St, Fut, F> Filter<St, Fut, F> where
    St: Stream,
    F: FnMut(&St::Item) -> Fut,
    Fut: Future<Output = bool>,
 {
    /// Creates a new `Filter`; no item is being judged yet.
    pub fn new(stream: St, f: F) -> (filter: Filter<St, Fut, F>)
        ensures
            filter.stream == stream,
            filter.f == f,
            filter.pending_fut is None,
            filter.pending_item is None,
    {
        Filter { stream, f, pending_fut: None, pending_item: None }
    }

    /// A reference to the underlying stream.
    pub fn get_ref(&self) -> (stream: &St)
        ensures
            *stream == self.stream,
    {
        &self.stream
    }

    /// A mutable reference to the underlying stream.
    pub fn get_mut(&mut self) -> (stream: &mut St)
        ensures
            *stream == old(self).stream,
            final(self).stream == *final(stream),
            final(self).f == old(self).f,
            final(self).pending_fut == old(self).pending_fut,
            final(self).pending_item == old(self).pending_item,
    {
        &mut self.stream
    }

    /// Gives the underlying stream back. An item that is being judged is
    /// lost.
    pub fn into_inner(self) -> (stream: St)
        ensures
            stream == self.stream,
    {
        self.stream
    }

    /// Whether no item is being judged.
    pub open spec fn idle(&self) -> bool {
        self.pending_fut is None && self.pending_item is None
    }

    /// What a poll of the predicate's future `fut` for `item` does to the
    /// round: a pending future is kept together with the item, `true` ends
    /// the poll with the item, and `false` drops the item and lets the poll go
    /// on.
    pub open spec fn judges(
        fut: Fut,
        item: St::Item,
        next: &Self,
        out: Option<Poll<Option<St::Item>>>,
    ) -> bool {
        match out {
            Some(Poll::Pending) => next.pending_fut is Some && fut.polls_to(
                &next.pending_fut->0,
                Poll::Pending,
            ) && next.pending_item == Some(item),
            Some(Poll::Ready(Some(kept))) => kept == item && completes_with(fut, true)
                && next.idle(),
            Some(Poll::Ready(None)) => false,
            None => completes_with(fut, false) && next.idle(),
        }
    }

    /// What a round does when no item is being judged: the stream is asked
    /// for an item, and the predicate's future for it is polled at once.
    pub open spec fn fetches(&self, next: &Self, out: Option<Poll<Option<St::Item>>>) -> bool {
        ||| out == Some(Poll::<Option<St::Item>>::Pending) && next.idle() && self.stream.yields(
            &next.stream,
            Poll::Pending,
        )
        ||| out == Some(Poll::<Option<St::Item>>::Ready(None)) && next.idle()
            && self.stream.yields(&next.stream, Poll::Ready(None))
        ||| exists|item: St::Item, fut: Fut|
            {
                &&& self.stream.yields(&next.stream, Poll::Ready(Some(item)))
                &&& #[trigger] call_ensures(self.f, (&item,), fut)
                &&& Self::judges(fut, item, next, out)
            }
    }

    /// Polls the predicate's future for `item`.
    fn judge(&mut self, mut fut: Fut, item: St::Item, waker: &Waker) -> (out: Option<
        Poll<Option<St::Item>>,
    >)
        requires
            fut.pollable(),
            old(self).idle(),
        ensures
            Self::judges(fut, item, final(self), out),
            final(self).stream == old(self).stream,
            final(self).f == old(self).f,
            final(self).pending_fut is Some == final(self).pending_item is Some,
            final(self).pending_fut is Some ==> final(self).pending_fut->0.pollable(),
    {
        match fut.poll(waker) {
            Poll::Pending => {
                self.pending_fut = Some(fut);
                self.pending_item = Some(item);
                Some(Poll::Pending)
            },
            Poll::Ready(keep) => {
                if keep {
                    Some(Poll::Ready(Some(item)))
                } else {
                    None
                }
            },
        }
    }

    /// The states in which a round of the poll may begin.
    pub open spec fn loop_inv(&self) -> bool {
        &&& self.stream.wf()
        &&& self.pending_fut is Some == self.pending_item is Some
        &&& self.pending_fut is Some ==> self.pending_fut->0.pollable()
        &&& forall|item: St::Item| #[trigger] call_requires(self.f, (&item,))
        &&& forall|item: St::Item, fut: Fut| #[trigger]
            call_ensures(self.f, (&item,), fut) ==> fut.pollable()
    }

    /// What holds of the state that a poll leaves when it returns `Ready`.
    pub open spec fn ready_inv(&self) -> bool {
        self.loop_inv()
    }

    /// Whether a round that starts in `self` may end in `next`, with `out` as the
    /// result of the poll, or with `None` where the poll goes on.
    pub open spec fn round(&self, next: &Self, out: Option<Poll<Option<St::Item>>>) -> bool {
        &&& next.f == self.f
        &&& match self.pending_fut {
            Some(fut) => next.stream == self.stream && Self::judges(
                fut,
                self.pending_item->0,
                next,
                out,
            ),
            None => self.fetches(next, out),
        }
    }

    /// One round: asks the stream for an item unless one is being judged, and polls
    /// the predicate's future for the item.
    pub fn step(&mut self, waker: &Waker) -> (out: Option<Poll<Option<St::Item>>>)
        requires
            old(self).loop_inv(),
        ensures
            old(self).round(final(self), out),
            out matches Some(Poll::Ready(_)) ==> final(self).ready_inv(),
            !(out matches Some(Poll::Ready(_))) ==> final(self).loop_inv(),
    {
        match self.pending_fut.take() {
            Some(fut) => {
                let item = self.pending_item.take().unwrap();
                self.judge(fut, item, waker)
            },
            None => {
                match self.stream.poll_next(waker) {
                    Poll::Pending => Some(Poll::Pending),
                    Poll::Ready(None) => Some(Poll::Ready(None)),
                    Poll::Ready(Some(item)) => {
                        let fut = (self.f)(&item);
                        self.judge(fut, item, waker)
                    },
                }
            },
        }
    }

    /// The rounds of the poll are those that `loop_inv`, `ready_inv` and `round`
    /// describe.
    pub proof fn lemma_poll_loop(&self, next: &Self, out: Option<Poll<Option<St::Item>>>)
        ensures
            PollLoop::loop_inv(self) == self.loop_inv(),
            PollLoop::ready_inv(self) == self.ready_inv(),
            PollLoop::round(self, next, out) == self.round(next, out),
    {
    }
}

impl<St, Fut, F> PollLoop for Filter<St, Fut, F> where
    St: Stream,
    F: FnMut(&St::Item) -> Fut,
    Fut: Future<Output = bool>,
 {
    type Ready = Option<St::Item>;

    open spec fn loop_inv(&self) -> bool {
        Filter::loop_inv(self)
    }

    open spec fn ready_inv(&self) -> bool {
        Filter::ready_inv(self)
    }

    open spec fn round(&self, next: &Self, out: Option<Poll<Option<St::Item>>>) -> bool {
        Filter::round(self, next, out)
    }

    fn step(&mut self, waker: &Waker) -> (out: Option<Poll<Option<St::Item>>>) {
        Filter::step(self, waker)
    }
}

impl<St, Fut, F> Filter<St, Fut, F> where
    St: Stream,
    F: FnMut(&St::Item) -> Fut,
    Fut: Future<Output = bool>,
 {
    /// The states in which the stream may be polled.
    pub open spec fn wf(&self) -> bool {
        self.loop_inv()
    }

    /// Whether a poll that starts in `self` may end in `next` and return `r`.
    pub open spec fn yields(&self, next: &Self, r: Poll<Option<St::Item>>) -> bool {
        runs_to(*self, *next, r)
    }

    /// Judges items until the predicate accepts one, the stream or the
    /// predicate is pending, or the stream has ended.
    pub fn poll_next(&mut self, waker: &Waker) -> (r: Poll<Option<St::Item>>)
        requires
            old(self).wf(),
        ensures
            final(self).wf(),
            old(self).yields(final(self), r),
    {
        run_rounds(self, waker)
    }

    /// As a `Stream`, this polls as `wf` and `yields` say.
    pub proof fn lemma_stream(&self, next: &Self, r: Poll<Option<St::Item>>)
        ensures
            Stream::wf(self) == self.wf(),
            Stream::yields(self, next, r) == self.yields(next, r),
    {
    }
}

impl<St, Fut, F> Stream for Filter<St, Fut, F> where
    St: Stream,
    F: FnMut(&St::Item) -> Fut,
    Fut: Future<Output = bool>,
 {
    type Item = St::Item;

    open spec fn wf(&self) -> bool {
        Filter::wf(self)
    }

    open spec fn yields(&self, next: &Self, r: Poll<Option<St::Item>>) -> bool {
        Filter::yields(self, next, r)
    }

    fn poll_next(&mut self, waker: &Waker) -> (r: Poll<Option<St::Item>>) {
        Filter::poll_next(self, waker)
    }
}

impl<St, Fut, F> Filter<St, Fut, F> where
    St: FusedStream,
    F: FnMut(&St::Item) -> Fut,
    Fut: Future<Output = bool>,
 {
    /// Whether the stream has ended.
    pub open spec fn terminated(&self) -> bool {
        self.pending_fut is None && self.stream.terminated()
    }

    /// Returns `true` if the stream should no longer be polled.
    pub fn is_terminated(&self) -> (b: bool)
        ensures
            b == self.terminated(),
    {
        self.pending_fut.is_none() && self.stream.is_terminated()
    }
}

impl<St, Fut, F> FusedStream for Filter<St, Fut, F> where
    St: FusedStream,
    F: FnMut(&St::Item) -> Fut,
    Fut: Future<Output = bool>,
 {
    open spec fn terminated(&self) -> bool {
        Filter::terminated(self)
    }

    fn is_terminated(&self) -> (b: bool) {
        Filter::is_terminated(self)
    }

    proof fn lemma_fused(&self, next: &Self, r: Poll<Option<St::Item>>) {
        let (mid, rounds) = choose|mid: Self, rounds: nat|
            {
                &&& rounds <= YIELD_EVERY
                &&& #[trigger] goes_on(*self, mid, rounds)
                &&& {
                    ||| mid.round(next, Some(r))
                    ||| rounds == YIELD_EVERY && r is Pending && *next == mid
                }
            };
        if r == Poll::<Option<St::Item>>::Ready(None) {
            mid.stream.lemma_fused(&next.stream, Poll::Ready(None));
        }
        if self.terminated() {
            assert forall|after: Self| !#[trigger] self.round(&after, None) by {
                if self.round(&after, None) {
                    let (item, fut) = choose|item: St::Item, fut: Fut|
                        {
                            &&& self.stream.yields(&after.stream, Poll::Ready(Some(item)))
                            &&& #[trigger] call_ensures(self.f, (&item,), fut)
                            &&& Self::judges(fut, item, &after, None)
                        };
                    self.stream.lemma_fused(&after.stream, Poll::Ready(Some(item)));
                }
            }
            lemma_no_round_goes_on(*self, mid, rounds);
            if self.stream.yields(&next.stream, Poll::Pending) {
                self.stream.lemma_fused(&next.stream, Poll::Pending);
            }
            if exists|item: St::Item| self.stream.yields(&next.stream, Poll::Ready(Some(item))) {
                let item = choose|item: St::Item|
                    self.stream.yields(&next.stream, Poll::Ready(Some(item)));
                self.stream.lemma_fused(&next.stream, Poll::Ready(Some(item)));
            }
        }
    }
}

} // verus!
