//! Merging two streams.

use vstd::prelude::*;
use std::task::Waker;
use crate::stream::Fuse;
use crate::stream::FusedStream;
use crate::stream::Stream;
use crate::task::Poll;

verus! {

/// Stream for the `select` combinator: yields the items of two streams as
/// they come, and takes turns between the two when both have an item.
#[derive(Debug)]
pub struct Select<St1, St2> {
    pub stream1: Fuse<St1>,
    pub stream2: Fuse<St2>,
    pub flag: bool,
}

/// What one poll of a pair of streams does, `first` being the one whose turn
/// it is. An item of `first` is yielded, and the turn passes to the other
/// stream. Where `first` has none, `second` is polled too: its item is
/// yielded; the end is reported when both have ended; otherwise the poll is
/// pending.
pub open spec fn selects<St1, St2>(
    flag: bool,
    first: St1,
    second: St2,
    next_flag: bool,
    next_first: St1,
    next_second: St2,
    r: Poll<Option<St1::Item>>,
) -> bool where St1: Stream, St2: Stream<Item = St1::Item> {
    ||| {
        &&& r matches Poll::Ready(Some(item))
        &&& first.yields(&next_first, r)
        &&& next_second == second
        &&& next_flag == !flag
    }
    ||| {
        &&& next_flag == flag
        &&& first.yields(&next_first, Poll::Ready(None))
        &&& second.yields(&next_second, r)
    }
    ||| {
        &&& next_flag == flag
        &&& first.yields(&next_first, Poll::Pending)
        &&& match r {
            Poll::Ready(Some(item)) => second.yields(&next_second, r),
            Poll::Ready(None) => false,
            Poll::Pending => second.yields(&next_second, Poll::Pending) || second.yields(
                &next_second,
                Poll::Ready(None),
            ),
        }
    }
}

/// Polls `a`, the stream whose turn it is, and then `b` if `a` had no item.
pub fn poll_inner<St1, St2>(flag: &mut bool, a: &mut St1, b: &mut St2, waker: &Waker) -> (r: Poll<
    Option<St1::Item>,
>) where St1: Stream, St2: Stream<Item = St1::Item>
    requires
        old(a).wf(),
        old(b).wf(),
    ensures
        final(a).wf(),
        final(b).wf(),
        selects(*old(flag), *old(a), *old(b), *final(flag), *final(a), *final(b), r),
{
    let a_done = match a.poll_next(waker) {
        Poll::Ready(Some(item)) => {
            *flag = !*flag;
            return Poll::Ready(Some(item));
        },
        Poll::Ready(None) => true,
        Poll::Pending => false,
    };
    match b.poll_next(waker) {
        Poll::Ready(Some(item)) => Poll::Ready(Some(item)),
        Poll::Ready(None) => {
            if a_done {
                Poll::Ready(None)
            } else {
                Poll::Pending
            }
        },
        Poll::Pending => Poll::Pending,
    }
}

impl<St1, St2> Select<St1, St2> where St1: Stream, St2: Stream<Item = St1::Item> {
    /// Creates a new `Select`; the first stream has the first turn.
    pub fn new(stream1: St1, stream2: St2) -> (select: Select<St1, St2>)
        ensures
            select.stream1.stream == stream1,
            select.stream2.stream == stream2,
            !select.stream1.done,
            !select.stream2.done,
            !select.flag,
    {
        Select { stream1: Fuse::new(stream1), stream2: Fuse::new(stream2), flag: false }
    }

    /// The states in which the stream may be polled.
    pub open spec fn wf(&self) -> bool {
        self.stream1.wf() && self.stream2.wf()
    }

    /// Whether a poll that starts in `self` may end in `next` and return `r`.
    pub open spec fn yields(&self, next: &Self, r: Poll<Option<St1::Item>>) -> bool {
        if !self.flag {
            selects(
                self.flag,
                self.stream1,
                self.stream2,
                next.flag,
                next.stream1,
                next.stream2,
                r,
            )
        } else {
            selects(
                self.flag,
                self.stream2,
                self.stream1,
                next.flag,
                next.stream2,
                next.stream1,
                r,
            )
        }
    }

    /// Polls the stream whose turn it is, and the other one if the first has no
    /// item.
    pub fn poll_next(&mut self, waker: &Waker) -> (r: Poll<Option<St1::Item>>)
        requires
            old(self).wf(),
        ensures
            final(self).wf(),
            old(self).yields(final(self), r),
    {
        if !self.flag {
            poll_inner(&mut self.flag, &mut self.stream1, &mut self.stream2, waker)
        } else {
            poll_inner(&mut self.flag, &mut self.stream2, &mut self.stream1, waker)
        }
    }

    /// As a `Stream`, this polls as `wf` and `yields` say.
    pub proof fn lemma_stream(&self, next: &Self, r: Poll<Option<St1::Item>>)
        ensures
            Stream::wf(self) == self.wf(),
            Stream::yields(self, next, r) == self.yields(next, r),
    {
    }
}

impl<St1, St2> Stream for Select<St1, St2> where St1: Stream, St2: Stream<Item = St1::Item> {
    type Item = St1::Item;

    open spec fn wf(&self) -> bool {
        Select::wf(self)
    }

    open spec fn yields(&self, next: &Self, r: Poll<Option<St1::Item>>) -> bool {
        Select::yields(self, next, r)
    }

    fn poll_next(&mut self, waker: &Waker) -> (r: Poll<Option<St1::Item>>) {
        Select::poll_next(self, waker)
    }
}

impl<St1, St2> Select<St1, St2> where St1: Stream, St2: Stream<Item = St1::Item> {
    /// Whether the stream has ended.
    pub open spec fn terminated(&self) -> bool {
        self.stream1.terminated() && self.stream2.terminated()
    }

    /// Returns `true` if the stream should no longer be polled.
    pub fn is_terminated(&self) -> (b: bool)
        ensures
            b == self.terminated(),
    {
        self.stream1.is_terminated() && self.stream2.is_terminated()
    }
}

impl<St1, St2> FusedStream for Select<St1, St2> where St1: Stream, St2: Stream<Item = St1::Item> {
    open spec fn terminated(&self) -> bool {
        Select::terminated(self)
    }

    fn is_terminated(&self) -> (b: bool) {
        Select::is_terminated(self)
    }

    proof fn lemma_fused(&self, next: &Self, r: Poll<Option<St1::Item>>) {
    }
}

} // verus!
