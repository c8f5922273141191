//! Task notification: the result of a poll and the handle that asks for the
//! next one.

use vstd::prelude::*;
use std::sync::Arc;
use std::task::Wake;

pub mod arc_wake;
pub mod noop_waker;
pub mod poll_loop;
pub mod wake_counter;
pub mod waker_ref;

pub use arc_wake::ArcWake;
pub use noop_waker::noop_waker;
pub use noop_waker::noop_waker_ref;
pub use poll_loop::YIELD_EVERY;
pub use wake_counter::new_count_waker;
pub use wake_counter::AwokenCount;
pub use waker_ref::waker_ref;
pub use waker_ref::WakerRef;

verus! {

/// `std::task::Waker`: a handle that asks the executor to poll a task again.
/// Nothing inside it is visible to the verifier.
#[verifier::external_type_specification]
#[verifier::external_body]
pub struct ExWaker(std::task::Waker);

/// `Waker::wake_by_ref`: runs the owner's wake operation and leaves the handle
/// usable. What the owner does is not visible here, so nothing is claimed.
pub assume_specification[ std::task::Waker::wake_by_ref ](waker: &std::task::Waker);

/// `Waker::clone`: a second handle to the same owner. Nothing is claimed of it.
pub assume_specification[ <std::task::Waker as Clone>::clone ](waker: &std::task::Waker) -> (copy:
    std::task::Waker);

/// `Waker::from` for a reference-counted owner: the handle takes over the
/// caller's reference. Nothing is claimed of the handle.
#[verifier::external_body]
pub(crate) fn waker_from_arc<W: Wake + Send + Sync + 'static>(owner: Arc<W>) -> (waker:
    std::task::Waker) {
    std::task::Waker::from(owner)
}

/// The result of one attempt to make progress.
#[derive(Debug, Clone, Copy, PartialEq, Eq)]
pub enum Poll<T> {
    /// The value is available.
    Ready(T),
    /// The value is not available yet; the waker handed to the poll has been
    /// arranged to fire once it may be.
    Pending,
}

impl<T> Poll<T> {
    /// Whether the value is available.
    pub fn is_ready(&self) -> (b: bool)
        ensures
            b == (self is Ready),
    {
        match self {
            Poll::Ready(_) => true,
            Poll::Pending => false,
        }
    }

    /// Whether the value is not available yet.
    pub fn is_pending(&self) -> (b: bool)
        ensures
            b == (self is Pending),
    {
        match self {
            Poll::Ready(_) => false,
            Poll::Pending => true,
        }
    }
}

} // verus!
