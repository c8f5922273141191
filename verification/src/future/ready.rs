//! A future that is ready at once.

use vstd::prelude::*;
use crate::future::FusedFuture;
use crate::future::Future;
use crate::task::Poll;
use std::task::Waker;

verus! {

/// A future that is immediately ready with a value.
#[derive(Debug)]
pub struct Ready<T> {
    pub value: Option<T>,
}

/// Creates a future that is immediately ready with `value`.
pub fn ready<T>(value: T) -> (fut: Ready<T>)
    ensures
        fut.value == Some(value),
{
    Ready { value: Some(value) }
}

impl<T> Future for Ready<T> {
    type Output = T;

    open spec fn pollable(&self) -> bool {
        self.value is Some
    }

    open spec fn polls_to(&self, next: &Self, r: Poll<T>) -> bool {
        &&& self.value is Some
        &&& r == Poll::Ready(self.value->0)
        &&& next.value is None
    }

    fn poll(&mut self, waker: &Waker) -> (r: Poll<T>) {
        match self.value.take() {
            Some(v) => Poll::Ready(v),
            None => Poll::Pending,
        }
    }
}

impl<T> FusedFuture for Ready<T> {
    open spec fn terminated(&self) -> bool {
        self.value is None
    }

    fn is_terminated(&self) -> (b: bool) {
        self.value.is_none()
    }

    proof fn lemma_fused(&self, next: &Self, r: Poll<T>) {
    }
}

} // verus!
