//! Skipping the first items of a fallible stream while a predicate holds.

use vstd::prelude::*;
use std::task::Waker;
use crate::future::try_completes_with;
use crate::future::TryFuture;
use crate::stream::Stream;
use crate::task::Poll;
use crate::task::poll_loop::PollLoop;
use crate::task::poll_loop::run_rounds;
use crate::task::poll_loop::runs_to;
use crate::try_stream::TryStream;

verus! {

/// Stream for the `try_skip_while` combinator: drops items while an
/// asynchronous predicate resolves to `true` for them, and passes on
/// everything from the first item for which it resolves to `false`. An error,
/// of the stream or of the predicate, is passed on as an item.
#[derive(Debug)]
pub struct TrySkipWhile<St: TryStream, Fut, F> {
    pub stream: St,
    pub f: F,
    pub pending_fut: Option<Fut>,
    pub pending_item: Option<St::Ok>,
    pub done_skipping: bool,
}

impl<St, Fut, F> TrySkipWhile<St, Fut, F> where
    St: TryStream,
    F: FnMut(&St::Ok) -> Fut,
    Fut: TryFuture<Ok = bool, Error = St::Error>,
 {
    /// Creates a new `TrySkipWhile`, which is still skipping.
    pub fn new(stream: St, f: F) -> (skip: TrySkipWhile<St, Fut, F>)
        ensures
            skip.stream == stream,
            skip.f == f,
            skip.idle(),
            !skip.done_skipping,
    {
        TrySkipWhile { stream, f, pending_fut: None, pending_item: None, done_skipping: false }
    }

    /// A reference to the underlying stream.
    pub fn get_ref(&self) -> (stream: &St)
        ensures
            *stream == self.stream,
    {
        &self.stream
    }

    /// A mutable reference to the underlying stream.
    pub fn get_mut(&mut self) -> (stream: &mut St)
        ensures
            *stream == old(self).stream,
            final(self).stream == *final(stream),
            final(self).f == old(self).f,
            final(self).pending_fut == old(self).pending_fut,
            final(self).pending_item == old(self).pending_item,
            final(self).done_skipping == old(self).done_skipping,
    {
        &mut self.stream
    }

    /// Gives the underlying stream back. An item that is being judged is
    /// lost.
    pub fn into_inner(self) -> (stream: St)
        ensures
            stream == self.stream,
    {
        self.stream
    }

    /// Whether no item is being judged.
    pub open spec fn idle(&self) -> bool {
        self.pending_fut is None && self.pending_item is None
    }

    /// What a poll of the predicate's future `fut` for `item` does to the
    /// round: a pending future is kept together with the item; an error ends
    /// the poll and drops the item; `true` drops the item and lets the poll
    /// go on; `false` ends the skipping and the poll, with the item.
    pub open spec fn judges(
        fut: Fut,
        item: St::Ok,
        next: &Self,
        out: Option<Poll<Option<Result<St::Ok, St::Error>>>>,
    ) -> bool {
        match out {
            Some(Poll::Pending) => !next.done_skipping && next.pending_fut is Some
                && fut.try_polls_to(&next.pending_fut->0, Poll::Pending) && next.pending_item
                == Some(item),
            Some(Poll::Ready(Some(Ok(kept)))) => kept == item && try_completes_with(
                fut,
                Ok(false),
            ) && next.idle() && next.done_skipping,
            Some(Poll::Ready(Some(Err(e)))) => try_completes_with(fut, Err(e)) && next.idle()
                && !next.done_skipping,
            Some(Poll::Ready(None)) => false,
            None => try_completes_with(fut, Ok(true)) && next.idle() && !next.done_skipping,
        }
    }

    /// What a round does when no item is being judged: the stream is asked
    /// for an item, and the predicate's future for it is polled at once.
    pub open spec fn fetches(
        &self,
        next: &Self,
        out: Option<Poll<Option<Result<St::Ok, St::Error>>>>,
    ) -> bool {
        ||| out == Some(Poll::<Option<Result<St::Ok, St::Error>>>::Pending) && next.idle()
            && !next.done_skipping && self.stream.try_yields(&next.stream, Poll::Pending)
        ||| out == Some(Poll::<Option<Result<St::Ok, St::Error>>>::Ready(None)) && next.idle()
            && !next.done_skipping && self.stream.try_yields(&next.stream, Poll::Ready(None))
        ||| exists|e: St::Error|
            {
                &&& #[trigger] self.stream.try_yields(&next.stream, Poll::Ready(Some(Err(e))))
                &&& out == Some(Poll::Ready(Some(Err::<St::Ok, St::Error>(e))))
                &&& next.idle()
                &&& !next.done_skipping
            }
        ||| exists|item: St::Ok, fut: Fut|
            {
                &&& self.stream.try_yields(&next.stream, Poll::Ready(Some(Ok(item))))
                &&& #[trigger] call_ensures(self.f, (&item,), fut)
                &&& Self::judges(fut, item, next, out)
            }
    }

    /// Polls the predicate's future for `item`.
    fn judge(&mut self, mut fut: Fut, item: St::Ok, waker: &Waker) -> (out: Option<
        Poll<Option<Result<St::Ok, St::Error>>>,
    >)
        requires
            fut.try_pollable(),
            old(self).idle(),
            !old(self).done_skipping,
        ensures
            Self::judges(fut, item, final(self), out),
            final(self).stream == old(self).stream,
            final(self).f == old(self).f,
            final(self).pending_fut is Some == final(self).pending_item is Some,
            final(self).pending_fut is Some ==> final(self).pending_fut->0.try_pollable(),
            final(self).done_skipping ==> final(self).idle(),
    {
        match fut.try_poll(waker) {
            Poll::Pending => {
                self.pending_fut = Some(fut);
                self.pending_item = Some(item);
                Some(Poll::Pending)
            },
            Poll::Ready(Err(e)) => {
                Some(Poll::Ready(Some(Err(e))))
            },
            Poll::Ready(Ok(skipped)) => {
                if skipped {
                    None
                } else {
                    self.done_skipping = true;
                    Some(Poll::Ready(Some(Ok(item))))
                }
            },
        }
    }

    /// The states in which a round of the poll may begin.
    pub open spec fn loop_inv(&self) -> bool {
        &&& !self.done_skipping
        &&& self.ready_inv()
    }

    /// What holds of the state that a poll leaves when it returns `Ready`.
    pub open spec fn ready_inv(&self) -> bool {
        &&& self.stream.try_wf()
        &&& self.pending_fut is Some == self.pending_item is Some
        &&& self.pending_fut is Some ==> self.pending_fut->0.try_pollable()
        &&& self.done_skipping ==> self.idle()
        &&& forall|item: St::Ok| #[trigger] call_requires(self.f, (&item,))
        &&& forall|item: St::Ok, fut: Fut| #[trigger]
            call_ensures(self.f, (&item,), fut) ==> fut.try_pollable()
    }

    /// Whether a round that starts in `self` may end in `next`, with `out` as the
    /// result of the poll, or with `None` where the poll goes on.
    pub open spec fn round(
        &self,
        next: &Self,
        out: Option<Poll<Option<Result<St::Ok, St::Error>>>>,
    ) -> bool {
        &&& next.f == self.f
        &&& match self.pending_fut {
            Some(fut) => next.stream == self.stream && Self::judges(
                fut,
                self.pending_item->0,
                next,
                out,
            ),
            None => self.fetches(next, out),
        }
    }

    /// One round: asks the stream for an item unless one is being judged, and polls
    /// the predicate's future for the item.
    pub fn step(&mut self, waker: &Waker) -> (out: Option<Poll<Option<Result<St::Ok, St::Error>>>>)
        requires
            old(self).loop_inv(),
        ensures
            old(self).round(final(self), out),
            out matches Some(Poll::Ready(_)) ==> final(self).ready_inv(),
            !(out matches Some(Poll::Ready(_))) ==> final(self).loop_inv(),
    {
        match self.pending_fut.take() {
            Some(fut) => {
                let item = self.pending_item.take().unwrap();
                self.judge(fut, item, waker)
            },
            None => {
                match self.stream.try_poll_next(waker) {
                    Poll::Pending => Some(Poll::Pending),
                    Poll::Ready(None) => Some(Poll::Ready(None)),
                    Poll::Ready(Some(Err(e))) => {
                        Some(Poll::Ready(Some(Err(e))))
                    },
                    Poll::Ready(Some(Ok(item))) => {
                        let fut = (self.f)(&item);
                        self.judge(fut, item, waker)
                    },
                }
            },
        }
    }

    /// The rounds of the poll are those that `loop_inv`, `ready_inv` and `round`
    /// describe.
    pub proof fn lemma_poll_loop(&self, next: &Self, out: Option<Poll<Option<Result<St::Ok, St::Error>>>>)
        ensures
            PollLoop::loop_inv(self) == self.loop_inv(),
            PollLoop::ready_inv(self) == self.ready_inv(),
            PollLoop::round(self, next, out) == self.round(next, out),
    {
    }
}

impl<St, Fut, F> PollLoop for TrySkipWhile<St, Fut, F> where
    St: TryStream,
    F: FnMut(&St::Ok) -> Fut,
    Fut: TryFuture<Ok = bool, Error = St::Error>,
 {
    type Ready = Option<Result<St::Ok, St::Error>>;

    open spec fn loop_inv(&self) -> bool {
        TrySkipWhile::loop_inv(self)
    }

    open spec fn ready_inv(&self) -> bool {
        TrySkipWhile::ready_inv(self)
    }

    open spec fn round(
        &self,
        next: &Self,
        out: Option<Poll<Option<Result<St::Ok, St::Error>>>>,
    ) -> bool {
        TrySkipWhile::round(self, next, out)
    }

    fn step(&mut self, waker: &Waker) -> (out: Option<Poll<Option<Result<St::Ok, St::Error>>>>) {
        TrySkipWhile::step(self, waker)
    }
}

impl<St, Fut, F> TrySkipWhile<St, Fut, F> where
    St: TryStream,
    F: FnMut(&St::Ok) -> Fut,
    Fut: TryFuture<Ok = bool, Error = St::Error>,
 {
    /// The states in which the stream may be polled.
    pub open spec fn wf(&self) -> bool {
        self.ready_inv()
    }

    /// Whether a poll that starts in `self` may end in `next` and return `r`.
    pub open spec fn yields(&self, next: &Self, r: Poll<Option<Result<St::Ok, St::Error>>>) -> bool {
        if self.done_skipping {
            &&& self.stream.try_yields(&next.stream, r)
            &&& next.f == self.f
            &&& next.idle()
            &&& next.done_skipping
        } else {
            runs_to(*self, *next, r)
        }
    }

    /// While skipping, judges items until the predicate lets one through, the
    /// stream or the predicate is pending, or the stream has ended. Once an
    /// item has been let through, every poll is a poll of the stream.
    pub fn poll_next(&mut self, waker: &Waker) -> (r: Poll<Option<Result<St::Ok, St::Error>>>)
        requires
            old(self).wf(),
        ensures
            final(self).wf(),
            old(self).yields(final(self), r),
    {
        if self.done_skipping {
            self.stream.try_poll_next(waker)
        } else {
            run_rounds(self, waker)
        }
    }

    /// As a `Stream`, this polls as `wf` and `yields` say.
    pub proof fn lemma_stream(&self, next: &Self, r: Poll<Option<Result<St::Ok, St::Error>>>)
        ensures
            Stream::wf(self) == self.wf(),
            Stream::yields(self, next, r) == self.yields(next, r),
    {
    }
}

impl<St, Fut, F> Stream for TrySkipWhile<St, Fut, F> where
    St: TryStream,
    F: FnMut(&St::Ok) -> Fut,
    Fut: TryFuture<Ok = bool, Error = St::Error>,
 {
    type Item = Result<St::Ok, St::Error>;

    open spec fn wf(&self) -> bool {
        TrySkipWhile::wf(self)
    }

    open spec fn yields(&self, next: &Self, r: Poll<Option<Result<St::Ok, St::Error>>>) -> bool {
        TrySkipWhile::yields(self, next, r)
    }

    fn poll_next(&mut self, waker: &Waker) -> (r: Poll<Option<Result<St::Ok, St::Error>>>) {
        TrySkipWhile::poll_next(self, waker)
    }
}

} // verus!
