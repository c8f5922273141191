//! Looking at the items of a stream on their way out.

use vstd::prelude::*;
use std::task::Waker;
use crate::stream::FusedStream;
use crate::stream::Stream;
use crate::task::Poll;

verus! {

/// Stream for the `inspect` combinator: hands a reference to each item to a
/// function and passes the item on.
#[derive(Debug)]
pub struct Inspect<St, F> {
    pub stream: St,
    pub f: F,
}

impl<St, F> Inspect<St, F> where St: Stream, F: FnMut(&St::Item) {
    /// Creates a new `Inspect`.
    pub fn new(stream: St, f: F) -> (inspect: Inspect<St, F>)
        ensures
            inspect.stream == stream,
            inspect.f == f,
    {
        Inspect { stream, f }
    }

    /// A reference to the underlying stream.
    pub fn get_ref(&self) -> (stream: &St)
        ensures
            *stream == self.stream,
    {
        &self.stream
    }

    /// A mutable reference to the underlying stream.
    pub fn get_mut(&mut self) -> (stream: &mut St)
        ensures
            *stream == old(self).stream,
            final(self).stream == *final(stream),
            final(self).f == old(self).f,
    {
        &mut self.stream
    }

    /// Gives the underlying stream back.
    pub fn into_inner(self) -> (stream: St)
        ensures
            stream == self.stream,
    {
        self.stream
    }

    /// The states in which the stream may be polled.
    pub open spec fn wf(&self) -> bool {
        &&& self.stream.wf()
        &&& forall|item: St::Item| #[trigger] call_requires(self.f, (&item,))
    }

    /// Whether a poll that starts in `self` may end in `next` and return `r`.
    pub open spec fn yields(&self, next: &Self, r: Poll<Option<St::Item>>) -> bool {
        &&& self.stream.yields(&next.stream, r)
        &&& next.f == self.f
    }

    /// Polls the inner stream and shows an item that comes to the function.
    pub fn poll_next(&mut self, waker: &Waker) -> (r: Poll<Option<St::Item>>)
        requires
            old(self).wf(),
        ensures
            final(self).wf(),
            old(self).yields(final(self), r),
    {
        let r = self.stream.poll_next(waker);
        match &r {
            Poll::Ready(Some(item)) => {
                (self.f)(item);
            },
            _ => {},
        }
        r
    }

    /// As a `Stream`, this polls as `wf` and `yields` say.
    pub proof fn lemma_stream(&self, next: &Self, r: Poll<Option<St::Item>>)
        ensures
            Stream::wf(self) == self.wf(),
            Stream::yields(self, next, r) == self.yields(next, r),
    {
    }
}

impl<St, F> Stream for Inspect<St, F> where St: Stream, F: FnMut(&St::Item) {
    type Item = St::Item;

    open spec fn wf(&self) -> bool {
        Inspect::wf(self)
    }

    open spec fn yields(&self, next: &Self, r: Poll<Option<St::Item>>) -> bool {
        Inspect::yields(self, next, r)
    }

    fn poll_next(&mut self, waker: &Waker) -> (r: Poll<Option<St::Item>>) {
        Inspect::poll_next(self, waker)
    }
}

impl<St, F> Inspect<St, F> where St: FusedStream, F: FnMut(&St::Item) {
    /// Whether the stream has ended.
    pub open spec fn terminated(&self) -> bool {
        self.stream.terminated()
    }

    /// Returns `true` if the stream should no longer be polled.
    pub fn is_terminated(&self) -> (b: bool)
        ensures
            b == self.terminated(),
    {
        self.stream.is_terminated()
    }
}

impl<St, F> FusedStream for Inspect<St, F> where St: FusedStream, F: FnMut(&St::Item) {
    open spec fn terminated(&self) -> bool {
        Inspect::terminated(self)
    }

    fn is_terminated(&self) -> (b: bool) {
        Inspect::is_terminated(self)
    }

    proof fn lemma_fused(&self, next: &Self, r: Poll<Option<St::Item>>) {
        self.stream.lemma_fused(&next.stream, r);
    }
}

} // verus!
