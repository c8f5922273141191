//! A stream that remembers that it has ended.

use vstd::prelude::*;
use std::task::Waker;
use crate::sink::Sink;
use crate::stream::FusedStream;
use crate::stream::Stream;
use crate::task::Poll;

verus! {

/// A stream which returns `Ready(None)` from every poll once the underlying
/// stream has ended, without polling the underlying stream again.
#[derive(Debug)]
pub struct Fuse<St> {
    pub stream: St,
    pub done: bool,
}

impl<St: Stream> Fuse<St> {
    /// Wraps `stream`, which has not ended yet.
    pub fn new(stream: St) -> (fuse: Fuse<St>)
        ensures
            fuse.stream == stream,
            !fuse.done,
    {
        Fuse { stream, done: false }
    }

    /// Whether the underlying stream has ended. Once it has, `poll_next`
    /// returns `Ready(None)` for ever.
    pub fn is_done(&self) -> (b: bool)
        ensures
            b == self.done,
    {
        self.done
    }

    /// A reference to the underlying stream.
    pub fn get_ref(&self) -> (stream: &St)
        ensures
            *stream == self.stream,
    {
        &self.stream
    }

    /// A mutable reference to the underlying stream.
    pub fn get_mut(&mut self) -> (stream: &mut St)
        ensures
            *stream == old(self).stream,
            final(self).stream == *final(stream),
            final(self).done == old(self).done,
    {
        &mut self.stream
    }

    /// Gives the underlying stream back.
    pub fn into_inner(self) -> (stream: St)
        ensures
            stream == self.stream,
    {
        self.stream
    }

    /// The states in which the stream may be polled.
    pub open spec fn wf(&self) -> bool {
        self.stream.wf()
    }

    /// Whether a poll that starts in `self` may end in `next` and return `r`.
    pub open spec fn yields(&self, next: &Self, r: Poll<Option<St::Item>>) -> bool {
        if self.done {
            r == Poll::<Option<St::Item>>::Ready(None) && *next == *self
        } else {
            &&& self.stream.yields(&next.stream, r)
            &&& next.done == (r == Poll::<Option<St::Item>>::Ready(None))
        }
    }

    /// Polls the inner stream unless it has ended, and notes its end.
    pub fn poll_next(&mut self, waker: &Waker) -> (r: Poll<Option<St::Item>>)
        requires
            old(self).wf(),
        ensures
            final(self).wf(),
            old(self).yields(final(self), r),
    {
        if self.done {
            return Poll::Ready(None);
        }
        let r = self.stream.poll_next(waker);
        match &r {
            Poll::Ready(None) => {
                self.done = true;
            },
            _ => {},
        }
        r
    }

    /// As a `Stream`, this polls as `wf` and `yields` say.
    pub proof fn lemma_stream(&self, next: &Self, r: Poll<Option<St::Item>>)
        ensures
            Stream::wf(self) == self.wf(),
            Stream::yields(self, next, r) == self.yields(next, r),
    {
    }
}

impl<St: Stream> Stream for Fuse<St> {
    type Item = St::Item;

    open spec fn wf(&self) -> bool {
        Fuse::wf(self)
    }

    open spec fn yields(&self, next: &Self, r: Poll<Option<St::Item>>) -> bool {
        Fuse::yields(self, next, r)
    }

    fn poll_next(&mut self, waker: &Waker) -> (r: Poll<Option<St::Item>>) {
        Fuse::poll_next(self, waker)
    }
}

impl<St: Stream> Fuse<St> {
    /// Whether the stream has ended.
    pub open spec fn terminated(&self) -> bool {
        self.done
    }

    /// Returns `true` if the stream should no longer be polled.
    pub fn is_terminated(&self) -> (b: bool)
        ensures
            b == self.terminated(),
    {
        self.done
    }
}

impl<St: Stream> FusedStream for Fuse<St> {
    open spec fn terminated(&self) -> bool {
        Fuse::terminated(self)
    }

    fn is_terminated(&self) -> (b: bool) {
        Fuse::is_terminated(self)
    }

    proof fn lemma_fused(&self, next: &Self, r: Poll<Option<St::Item>>) {
    }
}

/// A fused stream that is a sink too is the sink that the stream is.
impl<St: Stream + Sink> Sink for Fuse<St> {
    type SinkItem = St::SinkItem;

    type SinkError = St::SinkError;

    open spec fn sink_wf(&self) -> bool {
        self.stream.sink_wf()
    }

    open spec fn readies(&self, next: &Self, r: Poll<Result<(), St::SinkError>>) -> bool {
        self.stream.readies(&next.stream, r) && next.done == self.done
    }

    open spec fn sends(&self, item: St::SinkItem, next: &Self, r: Result<(), St::SinkError>) -> bool {
        self.stream.sends(item, &next.stream, r) && next.done == self.done
    }

    open spec fn flushes(&self, next: &Self, r: Poll<Result<(), St::SinkError>>) -> bool {
        self.stream.flushes(&next.stream, r) && next.done == self.done
    }

    open spec fn closes(&self, next: &Self, r: Poll<Result<(), St::SinkError>>) -> bool {
        self.stream.closes(&next.stream, r) && next.done == self.done
    }

    fn poll_ready(&mut self, waker: &Waker) -> (r: Poll<Result<(), St::SinkError>>) {
        self.stream.poll_ready(waker)
    }

    fn start_send(&mut self, item: St::SinkItem) -> (r: Result<(), St::SinkError>) {
        self.stream.start_send(item)
    }

    fn poll_flush(&mut self, waker: &Waker) -> (r: Poll<Result<(), St::SinkError>>) {
        self.stream.poll_flush(waker)
    }

    fn poll_close(&mut self, waker: &Waker) -> (r: Poll<Result<(), St::SinkError>>) {
        self.stream.poll_close(waker)
    }
}

} // verus!
