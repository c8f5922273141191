//! Wakers backed by a reference-counted owner.

use vstd::prelude::*;
use std::sync::Arc;
use std::task::Wake;
use std::task::Waker;
use crate::task::waker_from_arc;

verus! {

/// A way of waking up a specific task.
///
/// A type that is held in an `Arc` and knows how to put its task back on the
/// executor's queue implements this trait. Its `std::task::Wake` impl forwards
/// to `ArcWake::wake`, and `into_waker` then turns a reference to it into a
/// `Waker` without a second allocation: cloning the waker takes one more
/// reference to the owner, dropping it gives one back.
pub trait ArcWake {
    /// Says that the task is ready to make progress and should be polled.
    ///
    /// May be called from any thread, and any number of times before the task
    /// is polled again.
    fn wake(arc_self: &Arc<Self>);

    /// Turns a reference to the owner into a `Waker`.
    fn into_waker(self: Arc<Self>) -> (waker: Waker) where
        Self: Wake + Send + Sync + Sized + 'static,
     {
        waker_from_arc(self)
    }
}

} // verus!
