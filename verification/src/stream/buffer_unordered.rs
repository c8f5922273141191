//! Running a bounded number of the futures of a stream side by side.

use vstd::prelude::*;
use std::task::Waker;
use crate::future::Future;
use crate::sink::Sink;
use crate::stream::Fuse;
use crate::stream::FusedStream;
use crate::stream::FuturesUnordered;
use crate::stream::registry::advances;
use crate::stream::registry::hands_out;
use crate::stream::registry::lemma_advances_keeps_slots;
use crate::stream::registry::registry_yields;
use crate::stream::Stream;
use crate::task::Poll;
use crate::task::YIELD_EVERY;

verus! {

/// Stream for the `buffer_unordered` combinator: takes futures from a stream,
/// runs up to `max` of them at a time, and yields their outputs as they
/// complete.
pub struct BufferUnordered<St> where St: Stream, St::Item: Future {
    pub stream: Fuse<St>,
    pub in_progress_queue: FuturesUnordered<St::Item>,
    pub max: usize,
}

/// Whether every future that a well-formed `St` may yield may be polled.
pub open spec fn yields_futures<St: Stream>() -> bool where St::Item: Future {
    forall|from: St, to: St, fut: St::Item|
        from.wf() && #[trigger] from.yields(&to, Poll::Ready(Some(fut))) ==> fut.pollable()
}

/// Whether the stream yields one future, which is put into a slot of its own.
pub open spec fn pulls<St>(
    stream: Fuse<St>,
    futures: Map<int, St::Item>,
    next_stream: Fuse<St>,
    next_futures: Map<int, St::Item>,
) -> bool where St: Stream, St::Item: Future {
    exists|fut: St::Item, slot: int|
        {
            &&& stream.yields(&next_stream, Poll::Ready(Some(fut)))
            &&& !futures.contains_key(slot)
            &&& next_futures =~= #[trigger] futures.insert(slot, fut)
        }
}

/// Whether `pulled` futures that the stream yielded one after the other, each
/// put into a slot of its own, lead from `stream` and `futures` to
/// `next_stream` and `next_futures`.
pub open spec fn fills<St>(
    stream: Fuse<St>,
    futures: Map<int, St::Item>,
    next_stream: Fuse<St>,
    next_futures: Map<int, St::Item>,
    pulled: nat,
) -> bool where St: Stream, St::Item: Future
    decreases pulled,
{
    if pulled == 0 {
        next_stream == stream && next_futures =~= futures
    } else {
        exists|mid_stream: Fuse<St>, mid_futures: Map<int, St::Item>|
            {
                &&& fills(stream, futures, mid_stream, mid_futures, (pulled - 1) as nat)
                &&& #[trigger] pulls(mid_stream, mid_futures, next_stream, next_futures)
            }
    }
}

/// What the first part of a poll does: futures are pulled from the stream
/// until `max` are in flight or the stream has none to give.
pub open spec fn stocks<St>(
    stream: Fuse<St>,
    futures: Map<int, St::Item>,
    max: usize,
    next_stream: Fuse<St>,
    next_futures: Map<int, St::Item>,
) -> bool where St: Stream, St::Item: Future {
    exists|filled: Fuse<St>, pulled: nat|
        {
            &&& #[trigger] fills(stream, futures, filled, next_futures, pulled)
            &&& if next_futures.len() >= max {
                next_stream == filled
            } else {
                filled.yields(&next_stream, Poll::Pending) || filled.yields(
                    &next_stream,
                    Poll::Ready(None),
                )
            }
        }
}

/// What the poll returns, given what the registry returned: the end is
/// reported only when the stream has ended too.
pub open spec fn settles<T>(from_registry: Poll<Option<T>>, stream_done: bool) -> Poll<Option<T>> {
    match from_registry {
        Poll::Ready(None) => if stream_done {
            Poll::Ready(None)
        } else {
            Poll::Pending
        },
        other => other,
    }
}

impl<St> BufferUnordered<St> where St: Stream, St::Item: Future {
    /// Creates a new `BufferUnordered` that runs up to `n` futures at a time.
    pub fn new(stream: St, n: usize) -> (buffer: BufferUnordered<St>)
        ensures
            buffer.stream.stream == stream,
            !buffer.stream.done,
            buffer.in_progress_queue.inv(),
            buffer.in_progress_queue.futures() =~= Map::empty(),
            !buffer.in_progress_queue.reported_empty(),
            buffer.max == n,
    {
        BufferUnordered {
            stream: Fuse::new(stream),
            in_progress_queue: FuturesUnordered::new(),
            max: n,
        }
    }

    /// A reference to the underlying stream.
    pub fn get_ref(&self) -> (stream: &St)
        ensures
            *stream == self.stream.stream,
    {
        self.stream.get_ref()
    }

    /// A mutable reference to the underlying stream.
    pub fn get_mut(&mut self) -> (stream: &mut St)
        ensures
            *stream == old(self).stream.stream,
            final(self).stream.stream == *final(stream),
            final(self).stream.done == old(self).stream.done,
            final(self).in_progress_queue == old(self).in_progress_queue,
            final(self).max == old(self).max,
    {
        self.stream.get_mut()
    }

    /// Gives the underlying stream back. The futures in flight are lost.
    pub fn into_inner(self) -> (stream: St)
        ensures
            stream == self.stream.stream,
    {
        self.stream.into_inner()
    }

    /// The states in which the stream may be polled.
    pub open spec fn wf(&self) -> bool {
        &&& self.stream.wf()
        &&& self.in_progress_queue.inv()
        &&& yields_futures::<St>()
    }

    /// Whether a poll that starts in `self` may end in `next` and return `r`.
    pub open spec fn yields(&self, next: &Self, r: Poll<Option<<St::Item as Future>::Output>>) -> bool {
        &&& next.max == self.max
        &&& exists|filled: Map<int, St::Item>, from_registry: Poll<Option<<St::Item as Future>::Output>>|
            {
                &&& stocks(
                    self.stream,
                    self.in_progress_queue.futures(),
                    self.max,
                    next.stream,
                    filled,
                )
                &&& #[trigger] registry_yields(
                    filled,
                    next.in_progress_queue.futures(),
                    from_registry,
                )
                &&& next.in_progress_queue.reported_empty() == (from_registry == Poll::<
                    Option<<St::Item as Future>::Output>,
                >::Ready(None))
                &&& r == settles(from_registry, next.stream.done)
            }
    }

    /// Pulls futures from the stream until `max` are in flight, then polls
    /// those that asked for it and yields the first output that comes.
    pub fn poll_next(&mut self, waker: &Waker) -> (r: Poll<Option<<St::Item as Future>::Output>>)
        requires
            old(self).wf(),
        ensures
            final(self).wf(),
            old(self).yields(final(self), r),
    {
        let ghost start_stream = self.stream;
        let ghost start_futures = self.in_progress_queue.futures();
        let ghost mut pulled: nat = 0;
        let ghost mut stocked = false;
        while self.in_progress_queue.len() < self.max
            invariant_except_break
                !stocked,
            invariant
                self.stream.wf(),
                self.in_progress_queue.inv(),
                yields_futures::<St>(),
                self.max == old(self).max,
                start_stream == old(self).stream,
                start_futures == old(self).in_progress_queue.futures(),
                stocked ==> stocks(
                    start_stream,
                    start_futures,
                    self.max,
                    self.stream,
                    self.in_progress_queue.futures(),
                ),
                !stocked ==> fills(
                    start_stream,
                    start_futures,
                    self.stream,
                    self.in_progress_queue.futures(),
                    pulled,
                ),
            ensures
                stocks(
                    start_stream,
                    start_futures,
                    self.max,
                    self.stream,
                    self.in_progress_queue.futures(),
                ),
            decreases self.max - self.in_progress_queue.futures().len(),
        {
            let ghost before_stream = self.stream;
            let ghost before_futures = self.in_progress_queue.futures();
            match self.stream.poll_next(waker) {
                Poll::Ready(Some(fut)) => {
                    self.in_progress_queue.push(fut);
                    proof {
                        let after = self.in_progress_queue.futures();
                        assert(pulls(before_stream, before_futures, self.stream, after));
                        pulled = pulled + 1;
                    }
                },
                Poll::Ready(None) => {
                    proof {
                        stocked = true;
                    }
                    break ;
                },
                Poll::Pending => {
                    proof {
                        stocked = true;
                    }
                    break ;
                },
            }
        }
        let ghost filled = self.in_progress_queue.futures();
        let from_registry = self.in_progress_queue.poll_next(waker);
        assert(registry_yields(filled, self.in_progress_queue.futures(), from_registry));
        match from_registry {
            Poll::Pending => Poll::Pending,
            Poll::Ready(Some(out)) => Poll::Ready(Some(out)),
            Poll::Ready(None) => {
                if self.stream.is_done() {
                    Poll::Ready(None)
                } else {
                    Poll::Pending
                }
            },
        }
    }

    /// As a `Stream`, this polls as `wf` and `yields` say.
    pub proof fn lemma_stream(&self, next: &Self, r: Poll<Option<<St::Item as Future>::Output>>)
        ensures
            Stream::wf(self) == self.wf(),
            Stream::yields(self, next, r) == self.yields(next, r),
    {
    }
}

impl<St> Stream for BufferUnordered<St> where St: Stream, St::Item: Future {
    type Item = <St::Item as Future>::Output;

    open spec fn wf(&self) -> bool {
        BufferUnordered::wf(self)
    }

    open spec fn yields(&self, next: &Self, r: Poll<Option<<St::Item as Future>::Output>>) -> bool {
        BufferUnordered::yields(self, next, r)
    }

    fn poll_next(&mut self, waker: &Waker) -> (r: Poll<Option<<St::Item as Future>::Output>>) {
        BufferUnordered::poll_next(self, waker)
    }
}

impl<St> BufferUnordered<St> where St: Stream, St::Item: Future {
    /// Whether the stream has ended.
    pub open spec fn terminated(&self) -> bool {
        self.in_progress_queue.terminated() && self.stream.terminated()
    }

    /// Returns `true` if the stream should no longer be polled.
    pub fn is_terminated(&self) -> (b: bool)
        ensures
            b == self.terminated(),
    {
        self.in_progress_queue.is_terminated() && self.stream.is_terminated()
    }
}

impl<St> FusedStream for BufferUnordered<St> where St: Stream, St::Item: Future {
    open spec fn terminated(&self) -> bool {
        BufferUnordered::terminated(self)
    }

    fn is_terminated(&self) -> (b: bool) {
        BufferUnordered::is_terminated(self)
    }

    proof fn lemma_fused(&self, next: &Self, r: Poll<Option<<St::Item as Future>::Output>>) {
        if self.terminated() {
            let (filled, from_registry) = choose|
                filled: Map<int, St::Item>,
                from_registry: Poll<Option<<St::Item as Future>::Output>>,
            |
                {
                    &&& stocks(
                        self.stream,
                        self.in_progress_queue.futures(),
                        self.max,
                        next.stream,
                        filled,
                    )
                    &&& #[trigger] registry_yields(
                        filled,
                        next.in_progress_queue.futures(),
                        from_registry,
                    )
                    &&& next.in_progress_queue.reported_empty() == (from_registry == Poll::<
                        Option<<St::Item as Future>::Output>,
                    >::Ready(None))
                    &&& r == settles(from_registry, next.stream.done)
                };
            let (stream, pulled) = choose|stream: Fuse<St>, pulled: nat|
                {
                    &&& #[trigger] fills(
                        self.stream,
                        self.in_progress_queue.futures(),
                        stream,
                        filled,
                        pulled,
                    )
                    &&& if filled.len() >= self.max {
                        next.stream == stream
                    } else {
                        stream.yields(&next.stream, Poll::Pending) || stream.yields(
                            &next.stream,
                            Poll::Ready(None),
                        )
                    }
                };
            lemma_done_stream_fills_nothing(
                self.stream,
                self.in_progress_queue.futures(),
                stream,
                filled,
                pulled,
            );
            self.in_progress_queue.lemma_reported_empty_is_empty();
            let (mid, polls) = choose|mid: Map<int, St::Item>, polls: nat|
                {
                    &&& polls <= YIELD_EVERY
                    &&& #[trigger] advances(filled, mid, polls)
                    &&& hands_out(mid, next.in_progress_queue.futures(), from_registry)
                };
            lemma_advances_keeps_slots(filled, mid, polls);
        }
    }
}

/// A buffered stream that is a sink too is the sink that the stream is.
impl<St> Sink for BufferUnordered<St> where St: Stream + Sink, St::Item: Future {
    type SinkItem = St::SinkItem;

    type SinkError = St::SinkError;

    open spec fn sink_wf(&self) -> bool {
        self.stream.sink_wf()
    }

    open spec fn readies(&self, next: &Self, r: Poll<Result<(), St::SinkError>>) -> bool {
        &&& self.stream.readies(&next.stream, r)
        &&& next.in_progress_queue == self.in_progress_queue
        &&& next.max == self.max
    }

    open spec fn sends(&self, item: St::SinkItem, next: &Self, r: Result<(), St::SinkError>) -> bool {
        &&& self.stream.sends(item, &next.stream, r)
        &&& next.in_progress_queue == self.in_progress_queue
        &&& next.max == self.max
    }

    open spec fn flushes(&self, next: &Self, r: Poll<Result<(), St::SinkError>>) -> bool {
        &&& self.stream.flushes(&next.stream, r)
        &&& next.in_progress_queue == self.in_progress_queue
        &&& next.max == self.max
    }

    open spec fn closes(&self, next: &Self, r: Poll<Result<(), St::SinkError>>) -> bool {
        &&& self.stream.closes(&next.stream, r)
        &&& next.in_progress_queue == self.in_progress_queue
        &&& next.max == self.max
    }

    fn poll_ready(&mut self, waker: &Waker) -> (r: Poll<Result<(), St::SinkError>>) {
        self.stream.poll_ready(waker)
    }

    fn start_send(&mut self, item: St::SinkItem) -> (r: Result<(), St::SinkError>) {
        self.stream.start_send(item)
    }

    fn poll_flush(&mut self, waker: &Waker) -> (r: Poll<Result<(), St::SinkError>>) {
        self.stream.poll_flush(waker)
    }

    fn poll_close(&mut self, waker: &Waker) -> (r: Poll<Result<(), St::SinkError>>) {
        self.stream.poll_close(waker)
    }
}

/// A stream that has ended gives no future: nothing is pulled from it.
pub proof fn lemma_done_stream_fills_nothing<St>(
    stream: Fuse<St>,
    futures: Map<int, St::Item>,
    next_stream: Fuse<St>,
    next_futures: Map<int, St::Item>,
    pulled: nat,
) where St: Stream, St::Item: Future
    requires
        stream.done,
        fills(stream, futures, next_stream, next_futures, pulled),
    ensures
        pulled == 0,
        next_stream == stream,
        next_futures =~= futures,
    decreases pulled,
{
    if pulled > 0 {
        let (mid_stream, mid_futures) = choose|
            mid_stream: Fuse<St>,
            mid_futures: Map<int, St::Item>,
        |
            {
                &&& fills(stream, futures, mid_stream, mid_futures, (pulled - 1) as nat)
                &&& #[trigger] pulls(mid_stream, mid_futures, next_stream, next_futures)
            };
        lemma_done_stream_fills_nothing(
            stream,
            futures,
            mid_stream,
            mid_futures,
            (pulled - 1) as nat,
        );
    }
}

} // verus!
