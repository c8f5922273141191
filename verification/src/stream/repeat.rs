//! A stream that yields one value for ever.

use vstd::prelude::*;
use std::task::Waker;
use crate::stream::Stream;
use crate::task::Poll;

verus! {

/// Stream that produces the same element repeatedly.
#[derive(Debug)]
pub struct Repeat<T> {
    pub item: T,
}

/// Creates a stream which produces clones of `item` and never ends.
pub fn repeat<T: Clone>(item: T) -> (stream: Repeat<T>)
    ensures
        stream.item == item,
{
    Repeat { item }
}

impl<T: Clone> Stream for Repeat<T> {
    type Item = T;

    open spec fn wf(&self) -> bool {
        true
    }

    open spec fn yields(&self, next: &Self, r: Poll<Option<T>>) -> bool {
        &&& *next == *self
        &&& r matches Poll::Ready(Some(item)) && cloned::<T>(self.item, item)
    }

    fn poll_next(&mut self, waker: &Waker) -> (r: Poll<Option<T>>) {
        Poll::Ready(Some(self.item.clone()))
    }
}

} // verus!
