//! Reading the results of tasks that speak an older polling vocabulary.

use vstd::prelude::*;
use crate::task::Poll;

verus! {

/// The result of a poll in the older vocabulary, in which errors travel
/// beside the readiness rather than inside the value.
#[derive(Debug, Clone, Copy, PartialEq, Eq)]
pub enum Async01<T> {
    /// The value is available.
    Ready(T),
    /// The value is not available yet.
    NotReady,
}

/// What a future's older result is in this crate's vocabulary.
pub open spec fn future_result<T, E>(x: Result<Async01<T>, E>) -> Poll<Result<T, E>> {
    match x {
        Ok(Async01::Ready(t)) => Poll::Ready(Ok(t)),
        Ok(Async01::NotReady) => Poll::Pending,
        Err(e) => Poll::Ready(Err(e)),
    }
}

/// What a stream's older result is in this crate's vocabulary.
pub open spec fn stream_result<T, E>(x: Result<Async01<Option<T>>, E>) -> Poll<
    Option<Result<T, E>>,
> {
    match x {
        Ok(Async01::Ready(Some(t))) => Poll::Ready(Some(Ok(t))),
        Ok(Async01::Ready(None)) => Poll::Ready(None),
        Ok(Async01::NotReady) => Poll::Pending,
        Err(e) => Poll::Ready(Some(Err(e))),
    }
}

/// Translates the result of a poll of an older future: an error is a ready
/// result.
pub fn poll_01_to_03<T, E>(x: Result<Async01<T>, E>) -> (r: Poll<Result<T, E>>)
    ensures
        r == future_result(x),
{
    match x {
        Ok(Async01::Ready(t)) => Poll::Ready(Ok(t)),
        Ok(Async01::NotReady) => Poll::Pending,
        Err(e) => Poll::Ready(Err(e)),
    }
}

/// Translates the result of a poll of an older stream: an error is an item,
/// and the stream goes on after it.
pub fn poll_next_01_to_03<T, E>(x: Result<Async01<Option<T>>, E>) -> (r: Poll<Option<Result<T, E>>>)
    ensures
        r == stream_result(x),
{
    match x {
        Ok(Async01::Ready(Some(t))) => Poll::Ready(Some(Ok(t))),
        Ok(Async01::Ready(None)) => Poll::Ready(None),
        Ok(Async01::NotReady) => Poll::Pending,
        Err(e) => Poll::Ready(Some(Err(e))),
    }
}

} // verus!
