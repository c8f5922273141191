//! Using a `TryStream` where a `Stream` is asked for.

use vstd::prelude::*;
use std::task::Waker;
use crate::stream::FusedStream;
use crate::stream::Stream;
use crate::task::Poll;
use crate::try_stream::TryStream;

verus! {

/// Stream for the `into_stream` combinator: polls a `TryStream` as a `Stream`
/// whose items are the `Result`s.
#[derive(Debug)]
pub struct IntoStream<St> {
    pub stream: St,
}

impl<St> IntoStream<St> {
    /// Creates a new `IntoStream`.
    pub fn new(stream: St) -> (into_stream: IntoStream<St>)
        ensures
            into_stream.stream == stream,
    {
        IntoStream { stream }
    }

    /// A reference to the underlying stream.
    pub fn get_ref(&self) -> (stream: &St)
        ensures
            *stream == self.stream,
    {
        &self.stream
    }

    /// A mutable reference to the underlying stream.
    pub fn get_mut(&mut self) -> (stream: &mut St)
        ensures
            *stream == old(self).stream,
            final(self).stream == *final(stream),
    {
        &mut self.stream
    }

    /// Gives the underlying stream back.
    pub fn into_inner(self) -> (stream: St)
        ensures
            stream == self.stream,
    {
        self.stream
    }
}

impl<St: TryStream> IntoStream<St> {
    /// The states in which the stream may be polled.
    pub open spec fn wf(&self) -> bool {
        self.stream.try_wf()
    }

    /// Whether a poll that starts in `self` may end in `next` and return `r`.
    pub open spec fn yields(&self, next: &Self, r: Poll<Option<Result<St::Ok, St::Error>>>) -> bool {
        self.stream.try_yields(&next.stream, r)
    }

    /// Polls the inner stream as a `TryStream`.
    pub fn poll_next(&mut self, waker: &Waker) -> (r: Poll<Option<Result<St::Ok, St::Error>>>)
        requires
            old(self).wf(),
        ensures
            final(self).wf(),
            old(self).yields(final(self), r),
    {
        self.stream.try_poll_next(waker)
    }

    /// As a `Stream`, this polls as `wf` and `yields` say.
    pub proof fn lemma_stream(&self, next: &Self, r: Poll<Option<Result<St::Ok, St::Error>>>)
        ensures
            Stream::wf(self) == self.wf(),
            Stream::yields(self, next, r) == self.yields(next, r),
    {
    }
}

impl<St: TryStream> Stream for IntoStream<St> {
    type Item = Result<St::Ok, St::Error>;

    open spec fn wf(&self) -> bool {
        IntoStream::wf(self)
    }

    open spec fn yields(&self, next: &Self, r: Poll<Option<Result<St::Ok, St::Error>>>) -> bool {
        IntoStream::yields(self, next, r)
    }

    fn poll_next(&mut self, waker: &Waker) -> (r: Poll<Option<Result<St::Ok, St::Error>>>) {
        IntoStream::poll_next(self, waker)
    }
}

impl<St, T, E> IntoStream<St> where St: FusedStream<Item = Result<T, E>> {
    /// Whether the stream has ended.
    pub open spec fn terminated(&self) -> bool {
        self.stream.terminated()
    }

    /// Returns `true` if the stream should no longer be polled.
    pub fn is_terminated(&self) -> (b: bool)
        ensures
            b == self.terminated(),
    {
        self.stream.is_terminated()
    }
}

impl<St, T, E> FusedStream for IntoStream<St> where St: FusedStream<Item = Result<T, E>> {
    open spec fn terminated(&self) -> bool {
        IntoStream::terminated(self)
    }

    fn is_terminated(&self) -> (b: bool) {
        IntoStream::is_terminated(self)
    }

    proof fn lemma_fused(&self, next: &Self, r: Poll<Option<Result<T, E>>>) {
        self.stream.lemma_fused(&next.stream, r);
    }
}

} // verus!
