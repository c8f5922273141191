//! A waker that counts how often it is woken.

use vstd::prelude::*;
use std::sync::atomic::AtomicUsize;
use std::sync::atomic::Ordering;
use std::sync::Arc;
use std::task::Wake;
use std::task::Waker;
use crate::task::ArcWake;

verus! {

/// The owner behind a counting waker.
pub struct WakerInner {
    count: AtomicUsize,
}

impl ArcWake for WakerInner {
    fn wake(arc_self: &Arc<Self>) {
        let _ = arc_self.count.fetch_add(1, Ordering::SeqCst);
    }
}

impl Wake for WakerInner {
    fn wake(self: Arc<Self>) {
        ArcWake::wake(&self);
    }

    fn wake_by_ref(self: &Arc<Self>) {
        ArcWake::wake(self);
    }
}

/// Number of times the waker was awoken.
pub struct AwokenCount {
    inner: Arc<WakerInner>,
}

impl AwokenCount {
    /// Get the current count. Every thread that holds a clone of the waker
    /// may add to it at any time.
    pub fn get(&self) -> (count: usize) {
        self.inner.count.load(Ordering::SeqCst)
    }
}

/// Create a new `Waker` that counts the number of times it's awoken.
pub fn new_count_waker() -> (pair: (Waker, AwokenCount)) {
    let inner = Arc::new(WakerInner { count: AtomicUsize::new(0) });
    (ArcWake::into_waker(inner.clone()), AwokenCount { inner })
}

} // verus!
