//! A stream made of a polling function.

use vstd::prelude::*;
use std::task::Waker;
use crate::stream::Stream;
use crate::task::Poll;

verus! {

/// A stream which wraps a function returning `Poll<Option<T>>`.
#[derive(Debug)]
pub struct PollFn<F> {
    pub f: F,
}

/// Creates a stream whose `poll_next` is one call of `f`.
pub fn poll_fn<T, F>(f: F) -> (stream: PollFn<F>) where F: FnMut(&Waker) -> Poll<Option<T>>
    ensures
        stream.f == f,
{
    PollFn { f }
}

impl<T, F> PollFn<F> where F: FnMut(&Waker) -> Poll<Option<T>> {
    /// The states in which the stream may be polled.
    pub open spec fn wf(&self) -> bool {
        forall|waker: &Waker| #[trigger] call_requires(self.f, (waker,))
    }

    /// Whether a poll that starts in `self` may end in `next` and return `r`.
    pub open spec fn yields(&self, next: &Self, r: Poll<Option<T>>) -> bool {
        &&& next.f == self.f
        &&& exists|waker: &Waker| #[trigger] call_ensures(self.f, (waker,), r)
    }

    /// Calls the polling function once.
    pub fn poll_next(&mut self, waker: &Waker) -> (r: Poll<Option<T>>)
        requires
            old(self).wf(),
        ensures
            final(self).wf(),
            old(self).yields(final(self), r),
    {
        (self.f)(waker)
    }

    /// As a `Stream`, this polls as `wf` and `yields` say.
    pub proof fn lemma_stream(&self, next: &Self, r: Poll<Option<T>>)
        ensures
            Stream::wf(self) == self.wf(),
            Stream::yields(self, next, r) == self.yields(next, r),
    {
    }
}

impl<T, F> Stream for PollFn<F> where F: FnMut(&Waker) -> Poll<Option<T>> {
    type Item = T;

    open spec fn wf(&self) -> bool {
        PollFn::wf(self)
    }

    open spec fn yields(&self, next: &Self, r: Poll<Option<T>>) -> bool {
        PollFn::yields(self, next, r)
    }

    fn poll_next(&mut self, waker: &Waker) -> (r: Poll<Option<T>>) {
        PollFn::poll_next(self, waker)
    }
}

} // verus!
