//! A waker that is meant to be borrowed rather than owned.

use vstd::prelude::*;
use std::marker::PhantomData;
use std::sync::Arc;
use std::task::Wake;
use std::task::Waker;
use crate::task::ArcWake;

verus! {

/// A `Waker` that is only valid for a given lifetime.
#[derive(Debug)]
pub struct WakerRef<'a> {
    pub waker: Waker,
    pub _marker: PhantomData<&'a ()>,
}

impl<'a> WakerRef<'a> {
    /// Creates a new `WakerRef` from a `Waker`.
    pub fn new(waker: Waker) -> (waker_ref: WakerRef<'a>)
        ensures
            waker_ref.waker == waker,
    {
        WakerRef { waker, _marker: PhantomData }
    }

    /// The waker behind this reference.
    pub fn as_waker(&self) -> (waker: &Waker)
        ensures
            *waker == self.waker,
    {
        &self.waker
    }
}

/// Creates a waker for the owner behind `wake` that lives no longer than the
/// borrow of `wake`.
pub fn waker_ref<W>(wake: &Arc<W>) -> (waker_ref: WakerRef<'_>) where
    W: ArcWake + Wake + Send + Sync + 'static,
 {
    WakerRef::new(ArcWake::into_waker(wake.clone()))
}

} // verus!
