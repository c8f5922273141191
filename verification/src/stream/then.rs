//! Running a future for every item of a stream.

use vstd::prelude::*;
use std::task::Waker;
use crate::future::completes_with;
use crate::future::Future;
use crate::stream::FusedStream;
use crate::stream::Stream;
use crate::task::Poll;

verus! {

/// Stream for the `then` combinator: hands each item to a function and yields
/// the output of the future that the function builds, one at a time.
#[derive(Debug)]
pub struct Then<St, Fut, F> {
    pub stream: St,
    pub future: Option<Fut>,
    pub f: F,
}

impl<St, Fut, F> Then<St, Fut, F> where St: Stream, F: FnMut(St::Item) -> Fut, Fut: Future {
    /// Creates a new `Then`; no future is running yet.
    pub fn new(stream: St, f: F) -> (then: Then<St, Fut, F>)
        ensures
            then.stream == stream,
            then.future is None,
            then.f == f,
    {
        Then { stream, future: None, f }
    }

    /// What a poll of the running future `fut` does: a pending future stays,
    /// the output of a ready one is yielded.
    pub open spec fn runs(fut: Fut, left: Option<Fut>, r: Poll<Option<Fut::Output>>) -> bool {
        match r {
            Poll::Pending => left is Some && fut.polls_to(&left->0, Poll::Pending),
            Poll::Ready(Some(out)) => left is None && completes_with(fut, out),
            Poll::Ready(None) => false,
        }
    }

    /// What a poll does when no future is running: the stream is asked for an
    /// item, and the future built from the item is polled at once.
    pub open spec fn starts(&self, next: &Self, r: Poll<Option<Fut::Output>>) -> bool {
        ||| r is Pending && next.future is None && self.stream.yields(&next.stream, Poll::Pending)
        ||| r == Poll::<Option<Fut::Output>>::Ready(None) && next.future is None
            && self.stream.yields(&next.stream, Poll::Ready(None))
        ||| exists|item: St::Item, fut: Fut|
            {
                &&& self.stream.yields(&next.stream, Poll::Ready(Some(item)))
                &&& #[trigger] call_ensures(self.f, (item,), fut)
                &&& Self::runs(fut, next.future, r)
            }
    }

    /// Polls the running future and keeps it if it is pending.
    fn run(&mut self, mut fut: Fut, waker: &Waker) -> (r: Poll<Option<Fut::Output>>)
        requires
            fut.pollable(),
        ensures
            Self::runs(fut, final(self).future, r),
            final(self).future is Some ==> final(self).future->0.pollable(),
            final(self).stream == old(self).stream,
            final(self).f == old(self).f,
    {
        match fut.poll(waker) {
            Poll::Pending => {
                self.future = Some(fut);
                Poll::Pending
            },
            Poll::Ready(out) => {
                self.future = None;
                Poll::Ready(Some(out))
            },
        }
    }
}

impl<St, Fut, F> Then<St, Fut, F> where
    St: Stream,
    F: FnMut(St::Item) -> Fut,
    Fut: Future,
 {
    /// The states in which the stream may be polled.
    pub open spec fn wf(&self) -> bool {
        &&& self.stream.wf()
        &&& self.future is Some ==> self.future->0.pollable()
        &&& forall|item: St::Item| #[trigger] call_requires(self.f, (item,))
        &&& forall|item: St::Item, fut: Fut| #[trigger]
            call_ensures(self.f, (item,), fut) ==> fut.pollable()
    }

    /// Whether a poll that starts in `self` may end in `next` and return `r`.
    pub open spec fn yields(&self, next: &Self, r: Poll<Option<Fut::Output>>) -> bool {
        &&& next.f == self.f
        &&& match self.future {
            Some(fut) => next.stream == self.stream && Self::runs(fut, next.future, r),
            None => self.starts(next, r),
        }
    }

    /// Polls the future that is running, or asks the stream for an item and polls
    /// the future built for it; yields the output of a future that is ready.
    pub fn poll_next(&mut self, waker: &Waker) -> (r: Poll<Option<Fut::Output>>)
        requires
            old(self).wf(),
        ensures
            final(self).wf(),
            old(self).yields(final(self), r),
    {
        match self.future.take() {
            Some(fut) => self.run(fut, waker),
            None => {
                match self.stream.poll_next(waker) {
                    Poll::Pending => Poll::Pending,
                    Poll::Ready(None) => Poll::Ready(None),
                    Poll::Ready(Some(item)) => {
                        let fut = (self.f)(item);
                        self.run(fut, waker)
                    },
                }
            },
        }
    }

    /// As a `Stream`, this polls as `wf` and `yields` say.
    pub proof fn lemma_stream(&self, next: &Self, r: Poll<Option<Fut::Output>>)
        ensures
            Stream::wf(self) == self.wf(),
            Stream::yields(self, next, r) == self.yields(next, r),
    {
    }
}

impl<St, Fut, F> Stream for Then<St, Fut, F> where
    St: Stream,
    F: FnMut(St::Item) -> Fut,
    Fut: Future,
 {
    type Item = Fut::Output;

    open spec fn wf(&self) -> bool {
        Then::wf(self)
    }

    open spec fn yields(&self, next: &Self, r: Poll<Option<Fut::Output>>) -> bool {
        Then::yields(self, next, r)
    }

    fn poll_next(&mut self, waker: &Waker) -> (r: Poll<Option<Fut::Output>>) {
        Then::poll_next(self, waker)
    }
}

impl<St, Fut, F> Then<St, Fut, F> where
    St: FusedStream,
    F: FnMut(St::Item) -> Fut,
    Fut: Future,
 {
    /// Whether the stream has ended.
    pub open spec fn terminated(&self) -> bool {
        self.future is None && self.stream.terminated()
    }

    /// Returns `true` if the stream should no longer be polled.
    pub fn is_terminated(&self) -> (b: bool)
        ensures
            b == self.terminated(),
    {
        self.future.is_none() && self.stream.is_terminated()
    }
}

impl<St, Fut, F> FusedStream for Then<St, Fut, F> where
    St: FusedStream,
    F: FnMut(St::Item) -> Fut,
    Fut: Future,
 {
    open spec fn terminated(&self) -> bool {
        Then::terminated(self)
    }

    fn is_terminated(&self) -> (b: bool) {
        Then::is_terminated(self)
    }

    proof fn lemma_fused(&self, next: &Self, r: Poll<Option<Fut::Output>>) {
        if self.future is None {
            if self.stream.yields(&next.stream, Poll::Pending) {
                self.stream.lemma_fused(&next.stream, Poll::Pending);
            }
            if self.stream.yields(&next.stream, Poll::Ready(None)) {
                self.stream.lemma_fused(&next.stream, Poll::Ready(None));
            }
            if exists|item: St::Item| self.stream.yields(&next.stream, Poll::Ready(Some(item))) {
                let item = choose|item: St::Item|
                    self.stream.yields(&next.stream, Poll::Ready(Some(item)));
                self.stream.lemma_fused(&next.stream, Poll::Ready(Some(item)));
            }
        }
    }
}

} // verus!
