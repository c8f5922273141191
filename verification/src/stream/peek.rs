//! Looking at the next item of a stream without taking it.

use vstd::prelude::*;
use std::task::Waker;
use crate::stream::Fuse;
use crate::stream::FusedStream;
use crate::stream::Stream;
use crate::task::Poll;

verus! {

/// A stream with a `peek` method that hands out a reference to the next item
/// and keeps the item for the poll that follows.
#[derive(Debug)]
pub struct Peekable<St: Stream> {
    pub stream: Fuse<St>,
    pub peeked: Option<St::Item>,
}

impl<St: Stream> Peekable<St> {
    /// Wraps `stream`; nothing is peeked yet.
    pub fn new(stream: St) -> (peekable: Peekable<St>)
        ensures
            peekable.stream.stream == stream,
            !peekable.stream.done,
            peekable.peeked is None,
    {
        Peekable { stream: Fuse::new(stream), peeked: None }
    }

    /// Peeks at the next item: polls the stream unless an item is held
    /// already, keeps the item that comes and hands out a reference to it.
    ///
    /// The item stays in the stream: the next `poll_next` returns it.
    pub fn peek(&mut self, waker: &Waker) -> (r: Poll<Option<&St::Item>>)
        requires
            old(self).wf(),
        ensures
            final(self).wf(),
            old(self).peeked is Some ==> *final(self) == *old(self),
            old(self).peeked is Some ==> r == Poll::Ready(Some(&old(self).peeked->0)),
            old(self).peeked is None ==> match r {
                Poll::Pending => final(self).peeked is None && old(self).stream.yields(
                    &final(self).stream,
                    Poll::Pending,
                ),
                Poll::Ready(None) => final(self).peeked is None && old(self).stream.yields(
                    &final(self).stream,
                    Poll::Ready(None),
                ),
                Poll::Ready(Some(item)) => final(self).peeked == Some(*item)
                    && old(self).stream.yields(&final(self).stream, Poll::Ready(Some(*item))),
            },
    {
        if self.peeked.is_none() {
            match self.stream.poll_next(waker) {
                Poll::Pending => {
                    return Poll::Pending;
                },
                Poll::Ready(None) => {
                    return Poll::Ready(None);
                },
                Poll::Ready(Some(item)) => {
                    self.peeked = Some(item);
                },
            }
        }
        Poll::Ready(self.peeked.as_ref())
    }

    /// The states in which the stream may be polled.
    pub open spec fn wf(&self) -> bool {
        self.stream.wf()
    }

    /// Whether a poll that starts in `self` may end in `next` and return `r`.
    pub open spec fn yields(&self, next: &Self, r: Poll<Option<St::Item>>) -> bool {
        &&& next.peeked is None
        &&& if self.peeked is Some {
            r == Poll::Ready(self.peeked) && next.stream == self.stream
        } else {
            self.stream.yields(&next.stream, r)
        }
    }

    /// Yields the item that was peeked at, if there is one, and polls the stream
    /// otherwise.
    pub fn poll_next(&mut self, waker: &Waker) -> (r: Poll<Option<St::Item>>)
        requires
            old(self).wf(),
        ensures
            final(self).wf(),
            old(self).yields(final(self), r),
    {
        match self.peeked.take() {
            Some(item) => Poll::Ready(Some(item)),
            None => self.stream.poll_next(waker),
        }
    }

    /// As a `Stream`, this polls as `wf` and `yields` say.
    pub proof fn lemma_stream(&self, next: &Self, r: Poll<Option<St::Item>>)
        ensures
            Stream::wf(self) == self.wf(),
            Stream::yields(self, next, r) == self.yields(next, r),
    {
    }
}

impl<St: Stream> Stream for Peekable<St> {
    type Item = St::Item;

    open spec fn wf(&self) -> bool {
        Peekable::wf(self)
    }

    open spec fn yields(&self, next: &Self, r: Poll<Option<St::Item>>) -> bool {
        Peekable::yields(self, next, r)
    }

    fn poll_next(&mut self, waker: &Waker) -> (r: Poll<Option<St::Item>>) {
        Peekable::poll_next(self, waker)
    }
}

impl<St: Stream> Peekable<St> {
    /// Whether the stream has ended.
    pub open spec fn terminated(&self) -> bool {
        self.peeked is None && self.stream.terminated()
    }

    /// Returns `true` if the stream should no longer be polled.
    pub fn is_terminated(&self) -> (b: bool)
        ensures
            b == self.terminated(),
    {
        self.peeked.is_none() && self.stream.is_terminated()
    }
}

impl<St: Stream> FusedStream for Peekable<St> {
    open spec fn terminated(&self) -> bool {
        Peekable::terminated(self)
    }

    fn is_terminated(&self) -> (b: bool) {
        Peekable::is_terminated(self)
    }

    proof fn lemma_fused(&self, next: &Self, r: Poll<Option<St::Item>>) {
    }
}

} // verus!
