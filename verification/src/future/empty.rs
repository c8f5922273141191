//! A future that never resolves.

use vstd::prelude::*;
use std::marker::PhantomData;
use std::task::Waker;
use crate::future::FusedFuture;
use crate::future::Future;
use crate::task::Poll;

verus! {

/// A future which is never resolved.
#[derive(Debug)]
pub struct Empty<T> {
    pub _data: PhantomData<T>,
}

/// Creates a future which never resolves: every poll returns `Poll::Pending`.
pub fn empty<T>() -> (fut: Empty<T>)
    ensures
        fut.pollable(),
{
    Empty { _data: PhantomData }
}

impl<T> Future for Empty<T> {
    type Output = T;

    open spec fn pollable(&self) -> bool {
        true
    }

    open spec fn polls_to(&self, next: &Self, r: Poll<T>) -> bool {
        r is Pending && *next == *self
    }

    fn poll(&mut self, waker: &Waker) -> (r: Poll<T>) {
        Poll::Pending
    }
}

impl<T> FusedFuture for Empty<T> {
    open spec fn terminated(&self) -> bool {
        false
    }

    fn is_terminated(&self) -> (b: bool) {
        false
    }

    proof fn lemma_fused(&self, next: &Self, r: Poll<T>) {
    }
}

} // verus!
