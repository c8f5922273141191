//! Combinators for streams whose items are `Result`s.

use vstd::prelude::*;
use std::task::Waker;
use crate::future::TryFuture;
use crate::stream::Stream;
use crate::task::Poll;

pub mod into_stream;
pub mod try_fold;
pub mod try_skip_while;

pub use into_stream::IntoStream;
pub use try_fold::TryFold;
pub use try_skip_while::TrySkipWhile;

verus! {

/// A stream whose items are `Result`s.
pub trait TryStream {
    /// The type of successful values.
    type Ok;

    /// The type of failures.
    type Error;

    /// The states in which the stream may be polled. Where an impl does not
    /// say, every state is taken to be one.
    open spec fn try_wf(&self) -> bool {
        true
    }

    /// Whether a poll that starts in `self` may end in `next` and return `r`.
    /// Where an impl does not say, a poll may do anything.
    open spec fn try_yields(
        &self,
        next: &Self,
        r: Poll<Option<Result<Self::Ok, Self::Error>>>,
    ) -> bool {
        true
    }

    /// Polls this stream as `Stream::poll_next` does.
    fn try_poll_next(&mut self, waker: &Waker) -> (r: Poll<Option<Result<Self::Ok, Self::Error>>>)
        requires
            old(self).try_wf(),
        ensures
            final(self).try_wf(),
            old(self).try_yields(final(self), r),
    ;
}

impl<S, T, E> TryStream for S where S: Stream<Item = Result<T, E>> {
    type Ok = T;

    type Error = E;

    open spec fn try_wf(&self) -> bool {
        self.wf()
    }

    open spec fn try_yields(&self, next: &Self, r: Poll<Option<Result<T, E>>>) -> bool {
        self.yields(next, r)
    }

    fn try_poll_next(&mut self, waker: &Waker) -> (r: Poll<Option<Result<T, E>>>) {
        self.poll_next(waker)
    }
}

/// A stream whose items are `Result`s polls as a `TryStream` exactly as it
/// polls as a `Stream`.
pub proof fn lemma_try_stream<S, T, E>(stream: S, next: S, r: Poll<Option<Result<T, E>>>) where
    S: Stream<Item = Result<T, E>>,

    ensures
        stream.try_wf() == stream.wf(),
        stream.try_yields(&next, r) == stream.yields(&next, r),
{
}

/// Adapters for streams whose items are `Result`s.
pub trait TryStreamExt: TryStream + Sized {
    /// Wraps this `TryStream` so that it can be used as a `Stream` whose
    /// items are the `Result`s.
    fn into_stream(self) -> (stream: IntoStream<Self>)
        ensures
            stream.stream == self,
    {
        IntoStream::new(self)
    }

    /// Skips the items of this stream while `f` resolves to `true` for them.
    fn try_skip_while<Fut, F>(self, f: F) -> (stream: TrySkipWhile<Self, Fut, F>) where
        F: FnMut(&Self::Ok) -> Fut,
        Fut: TryFuture<Ok = bool, Error = Self::Error>,

        ensures
            stream.stream == self,
            stream.f == f,
            stream.idle(),
            !stream.done_skipping,
    {
        TrySkipWhile::new(self, f)
    }

    /// Folds the items of this stream into an accumulator that starts as
    /// `init`, and stops at the first error.
    fn try_fold<T, Fut, F>(self, init: T, f: F) -> (fold: TryFold<Self, Fut, T, F>) where
        F: FnMut(T, Self::Ok) -> Fut,
        Fut: TryFuture<Ok = T, Error = Self::Error>,

        ensures
            fold.stream == self,
            fold.f == f,
            fold.accum == Some(init),
            fold.future is None,
    {
        TryFold::new(self, f, init)
    }

    /// Polls this stream as `TryStream::try_poll_next` does.
    fn try_poll_next_unpin(&mut self, waker: &Waker) -> (r: Poll<
        Option<Result<Self::Ok, Self::Error>>,
    >)
        requires
            old(self).try_wf(),
        ensures
            final(self).try_wf(),
            old(self).try_yields(final(self), r),
    {
        self.try_poll_next(waker)
    }
}

impl<S: TryStream> TryStreamExt for S {
}

} // verus!
