//! A stream that ends at once.

use vstd::prelude::*;
use std::marker::PhantomData;
use std::task::Waker;
use crate::stream::FusedStream;
use crate::stream::Stream;
use crate::task::Poll;

verus! {

/// A stream which contains no elements.
#[derive(Debug)]
pub struct Empty<T> {
    pub _phantom: PhantomData<T>,
}

/// Creates a stream which contains no elements: every poll returns
/// `Poll::Ready(None)`.
pub fn empty<T>() -> (stream: Empty<T>)
    ensures
        stream.wf(),
{
    Empty { _phantom: PhantomData }
}

impl<T> Stream for Empty<T> {
    type Item = T;

    open spec fn wf(&self) -> bool {
        true
    }

    open spec fn yields(&self, next: &Self, r: Poll<Option<T>>) -> bool {
        r == Poll::<Option<T>>::Ready(None) && *next == *self
    }

    fn poll_next(&mut self, waker: &Waker) -> (r: Poll<Option<T>>) {
        Poll::Ready(None)
    }
}

impl<T> FusedStream for Empty<T> {
    open spec fn terminated(&self) -> bool {
        true
    }

    fn is_terminated(&self) -> (b: bool) {
        true
    }

    proof fn lemma_fused(&self, next: &Self, r: Poll<Option<T>>) {
    }
}

} // verus!
