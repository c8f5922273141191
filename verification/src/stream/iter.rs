//! A stream made of an iterator.

use vstd::prelude::*;
use std::task::Waker;
use vstd::std_specs::iter::IteratorSpec;
use crate::stream::Stream;
use crate::task::Poll;

verus! {

/// Stream for the `iter` function: yields the items of an iterator, each one
/// ready at once.
#[derive(Debug)]
pub struct Iter<I> {
    pub iter: I,
}

/// Converts an iterator into a stream which is always ready to yield the next
/// value.
pub fn iter<I: Iterator>(i: I) -> (stream: Iter<I>)
    ensures
        stream.iter == i,
{
    Iter { iter: i }
}

impl<I: Iterator> Iter<I> {
    /// The states in which the stream may be polled.
    pub open spec fn wf(&self) -> bool {
        true
    }

    /// Whether a poll that starts in `self` may end in `next` and return `r`.
    pub open spec fn yields(&self, next: &Self, r: Poll<Option<I::Item>>) -> bool {
        r is Ready
    }

    /// Hands out what the iterator's `next` returns: the first of the items
    /// that the iterator has left, or `None` when it has none.
    pub fn poll_next(&mut self, waker: &Waker) -> (r: Poll<Option<I::Item>>)
        requires
            old(self).wf(),
        ensures
            final(self).wf(),
            old(self).yields(final(self), r),
            old(self).iter.obeys_prophetic_iter_laws() && old(self).iter.remaining().len() > 0 ==> (
                r == Poll::Ready(Some(old(self).iter.remaining()[0]))
                && final(self).iter.remaining() == old(self).iter.remaining().drop_first()),
            old(self).iter.obeys_prophetic_iter_laws() && old(self).iter.remaining().len() == 0 ==> (
                r == Poll::<Option<I::Item>>::Ready(None)
                && final(self).iter.remaining() == old(self).iter.remaining()),
    {
        Poll::Ready(self.iter.next())
    }

    /// As a `Stream`, this polls as `wf` and `yields` say.
    pub proof fn lemma_stream(&self, next: &Self, r: Poll<Option<I::Item>>)
        ensures
            Stream::wf(self) == self.wf(),
            Stream::yields(self, next, r) == self.yields(next, r),
    {
    }
}

impl<I: Iterator> Stream for Iter<I> {
    type Item = I::Item;

    open spec fn wf(&self) -> bool {
        Iter::wf(self)
    }

    open spec fn yields(&self, next: &Self, r: Poll<Option<I::Item>>) -> bool {
        Iter::yields(self, next, r)
    }

    /// Of an iterator that keeps the iterator laws, the poll hands out the
    /// first of the items left and leaves the rest, or `None` when none is
    /// left.
    fn poll_next(&mut self, waker: &Waker) -> (r: Poll<Option<I::Item>>)
        ensures
            old(self).iter.obeys_prophetic_iter_laws() && old(self).iter.remaining().len() > 0 ==> (
                r == Poll::Ready(Some(old(self).iter.remaining()[0]))
                && final(self).iter.remaining() == old(self).iter.remaining().drop_first()),
            old(self).iter.obeys_prophetic_iter_laws() && old(self).iter.remaining().len() == 0 ==> (
                r == Poll::<Option<I::Item>>::Ready(None)
                && final(self).iter.remaining() == old(self).iter.remaining()),
    {
        Iter::poll_next(self, waker)
    }
}

} // verus!
