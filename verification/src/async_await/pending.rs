//! Yielding to the executor once.

use vstd::prelude::*;
use std::task::Waker;
use crate::future::Future;
use crate::task::Poll;

verus! {

/// A future that yields to the executor once: its first poll returns
/// `Poll::Pending`, its second `Poll::Ready(())`.
#[derive(Debug)]
pub struct PendingOnce {
    pub is_ready: bool,
}

/// A future whose first poll returns `Poll::Pending` and whose second is ready.
pub fn pending_once() -> (once: PendingOnce)
    ensures
        !once.is_ready,
{
    PendingOnce { is_ready: false }
}

impl Future for PendingOnce {
    type Output = ();

    open spec fn pollable(&self) -> bool {
        true
    }

    open spec fn polls_to(&self, next: &Self, r: Poll<()>) -> bool {
        &&& next.is_ready
        &&& (r is Ready) == self.is_ready
    }

    fn poll(&mut self, waker: &Waker) -> (r: Poll<()>) {
        if self.is_ready {
            Poll::Ready(())
        } else {
            self.is_ready = true;
            Poll::Pending
        }
    }
}

} // verus!
