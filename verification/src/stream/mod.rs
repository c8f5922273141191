//! Streams: sequences of values that become available over time.

use vstd::prelude::*;
use crate::task::Poll;
use std::task::Waker;

pub mod buffer_unordered;
pub mod collect;
pub mod empty;
pub mod filter;
pub mod flatten;
pub mod for_each;
pub mod for_each_concurrent;
pub mod fuse;
pub mod futures_ordered;
pub mod futures_unordered;
pub mod inspect;
pub mod into_future;
pub mod iter;
pub mod ordered;
pub mod peek;
pub mod poll_fn;
mod ready_queue;
pub mod registry;
pub mod repeat;
pub mod select;
pub mod then;

pub use buffer_unordered::BufferUnordered;
pub use collect::Collect;
pub use empty::empty;
pub use empty::Empty;
pub use filter::Filter;
pub use flatten::Flatten;
pub use for_each::ForEach;
pub use for_each_concurrent::ForEachConcurrent;
pub use fuse::Fuse;
pub use futures_ordered::futures_ordered;
pub use futures_ordered::FuturesOrdered;
pub use futures_unordered::futures_unordered;
pub use futures_unordered::FuturesUnordered;
pub use inspect::Inspect;
pub use into_future::StreamFuture;
pub use iter::iter;
pub use iter::Iter;
pub use peek::Peekable;
pub use poll_fn::poll_fn;
pub use poll_fn::PollFn;
pub use repeat::repeat;
pub use repeat::Repeat;
pub use select::poll_inner;
pub use select::Select;
pub use then::Then;

verus! {

/// A sequence of values that become available over time.
///
/// `yields` is the stream's transition relation: it says which states and
/// results one call of `poll_next` may lead to. `wf` holds of the states in
/// which `poll_next` may be called, and every poll keeps it.
pub trait Stream {
    /// The values the stream yields.
    type Item;

    /// The states in which the stream may be polled. Where an impl does not
    /// say, every state is taken to be one.
    open spec fn wf(&self) -> bool {
        true
    }

    /// Whether a poll that starts in `self` may end in `next` and return `r`.
    /// Where an impl does not say, a poll may do anything.
    open spec fn yields(&self, next: &Self, r: Poll<Option<Self::Item>>) -> bool {
        true
    }

    /// Attempts to pull the next value out of the stream.
    ///
    /// `Poll::Ready(Some(item))` hands out a value, `Poll::Ready(None)` says
    /// that the stream has ended, and `Poll::Pending` that no value is
    /// available yet: `waker` then fires once one may be.
    fn poll_next(&mut self, waker: &Waker) -> (r: Poll<Option<Self::Item>>)
        requires
            old(self).wf(),
        ensures
            final(self).wf(),
            old(self).yields(final(self), r),
    ;
}

/// A stream that knows whether it has ended, and that goes on to report its
/// end however often it is polled after it.
pub trait FusedStream: Stream {
    /// Whether the stream has ended.
    spec fn terminated(&self) -> bool;

    /// Returns `true` if the stream should no longer be polled.
    fn is_terminated(&self) -> (b: bool)
        ensures
            b == self.terminated(),
    ;

    /// A poll that returns `Ready(None)` leaves the stream terminated, and a
    /// terminated stream returns `Ready(None)` from every further poll.
    proof fn lemma_fused(&self, next: &Self, r: Poll<Option<Self::Item>>)
        requires
            self.wf(),
            self.yields(next, r),
        ensures
            r == Poll::<Option<Self::Item>>::Ready(None) ==> next.terminated(),
            self.terminated() ==> r == Poll::<Option<Self::Item>>::Ready(None),
    ;
}

} // verus!
