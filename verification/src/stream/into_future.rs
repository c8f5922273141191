//! Waiting for the next item of a stream as a future.

use vstd::prelude::*;
use std::task::Waker;
use crate::future::FusedFuture;
use crate::future::Future;
use crate::stream::Stream;
use crate::task::Poll;

verus! {

/// A future that resolves to the next item of a stream, together with the
/// stream itself.
#[derive(Debug)]
pub struct StreamFuture<St> {
    pub stream: Option<St>,
}

impl<St: Stream> StreamFuture<St> {
    /// A future for the next item of `stream`.
    pub fn new(stream: St) -> (fut: StreamFuture<St>)
        ensures
            fut.stream == Some(stream),
    {
        StreamFuture { stream: Some(stream) }
    }

    /// A reference to the underlying stream, or `None` once the future has
    /// completed and handed the stream out.
    pub fn get_ref(&self) -> (stream: Option<&St>)
        ensures
            stream is Some == self.stream is Some,
            stream is Some ==> *stream->0 == self.stream->0,
    {
        self.stream.as_ref()
    }

    /// A mutable reference to the underlying stream, or `None` once the
    /// future has completed and handed the stream out.
    pub fn get_mut(&mut self) -> (stream: Option<&mut St>)
        ensures
            stream is Some == old(self).stream is Some,
            stream is Some ==> *stream->0 == old(self).stream->0,
            stream is Some ==> final(self).stream == Some(*final(stream->0)),
            stream is None ==> final(self).stream is None,
    {
        self.stream.as_mut()
    }

    /// Gives the underlying stream back, or `None` once the future has
    /// completed and handed the stream out.
    pub fn into_inner(self) -> (stream: Option<St>)
        ensures
            stream == self.stream,
    {
        self.stream
    }

    /// The states in which the future may be polled.
    pub open spec fn pollable(&self) -> bool {
        self.stream is Some && self.stream->0.wf()
    }

    /// Whether a poll that starts in `self` may end in `next` and return `r`.
    pub open spec fn polls_to(&self, next: &Self, r: Poll<(Option<St::Item>, St)>) -> bool {
        &&& self.stream is Some
        &&& match r {
            Poll::Pending => next.stream is Some && self.stream->0.yields(
                &next.stream->0,
                Poll::Pending,
            ),
            Poll::Ready((item, rest)) => next.stream is None && self.stream->0.yields(
                &rest,
                Poll::Ready(item),
            ),
        }
    }

    /// Polls the stream once; when it is ready, resolves to what it yielded and to
    /// the stream itself.
    pub fn poll(&mut self, waker: &Waker) -> (r: Poll<(Option<St::Item>, St)>)
        requires
            old(self).pollable(),
        ensures
            old(self).polls_to(final(self), r),
            r is Pending ==> final(self).pollable(),
    {
        let mut stream = self.stream.take().unwrap();
        match stream.poll_next(waker) {
            Poll::Pending => {
                self.stream = Some(stream);
                Poll::Pending
            },
            Poll::Ready(item) => Poll::Ready((item, stream)),
        }
    }

    /// As a `Future`, this polls as `pollable` and `polls_to` say.
    pub proof fn lemma_future(&self, next: &Self, r: Poll<(Option<St::Item>, St)>)
        ensures
            Future::pollable(self) == self.pollable(),
            Future::polls_to(self, next, r) == self.polls_to(next, r),
    {
    }
}

impl<St: Stream> Future for StreamFuture<St> {
    type Output = (Option<St::Item>, St);

    open spec fn pollable(&self) -> bool {
        StreamFuture::pollable(self)
    }

    open spec fn polls_to(&self, next: &Self, r: Poll<(Option<St::Item>, St)>) -> bool {
        StreamFuture::polls_to(self, next, r)
    }

    fn poll(&mut self, waker: &Waker) -> (r: Poll<(Option<St::Item>, St)>) {
        StreamFuture::poll(self, waker)
    }
}

impl<St: Stream> StreamFuture<St> {
    /// Whether the future has completed.
    pub open spec fn terminated(&self) -> bool {
        self.stream is None
    }

    /// Returns `true` if the future should no longer be polled.
    pub fn is_terminated(&self) -> (b: bool)
        ensures
            b == self.terminated(),
    {
        self.stream.is_none()
    }
}

impl<St: Stream> FusedFuture for StreamFuture<St> {
    open spec fn terminated(&self) -> bool {
        StreamFuture::terminated(self)
    }

    fn is_terminated(&self) -> (b: bool) {
        StreamFuture::is_terminated(self)
    }

    proof fn lemma_fused(&self, next: &Self, r: Poll<(Option<St::Item>, St)>) {
    }
}

} // verus!
