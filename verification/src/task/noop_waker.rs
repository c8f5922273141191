//! Wakers that do nothing.

use vstd::prelude::*;
use std::task::Waker;

verus! {

/// `Waker::noop`: the process-wide waker whose wake operation does nothing.
pub assume_specification[ std::task::Waker::noop ]() -> (waker: &'static std::task::Waker);

/// A new waker that does nothing when it is woken.
pub fn noop_waker() -> (waker: Waker) {
    Waker::noop().clone()
}

/// The shared waker that does nothing when it is woken.
pub fn noop_waker_ref() -> (waker: &'static Waker) {
    Waker::noop()
}

} // verus!
