//! Sinks: values into which other values can be sent, asynchronously.

use vstd::prelude::*;
use std::task::Waker;
use crate::task::Poll;

pub mod buffer;

pub use buffer::Buffer;

verus! {

/// A value into which other values can be sent, asynchronously.
///
/// Sending is done in two steps: `poll_ready` asks whether the sink can take
/// an item, and `start_send` hands one over. `poll_flush` drives what was
/// handed over to its destination, and `poll_close` flushes and closes the
/// sink. Each operation is described by a relation between the state before
/// it, the state after it and what it returned.
pub trait Sink {
    /// The type of value that the sink accepts.
    type SinkItem;

    /// The type of value produced by the sink when an error occurs.
    type SinkError;

    /// The states in which the sink may be used. Where an impl does not say,
    /// every state is taken to be one.
    open spec fn sink_wf(&self) -> bool {
        true
    }

    /// Whether `poll_ready` may lead from `self` to `next` and return `r`.
    /// Where an impl does not say, it may do anything.
    open spec fn readies(&self, next: &Self, r: Poll<Result<(), Self::SinkError>>) -> bool {
        true
    }

    /// Whether `start_send` of `item` may lead from `self` to `next` and
    /// return `r`. Where an impl does not say, it may do anything.
    open spec fn sends(
        &self,
        item: Self::SinkItem,
        next: &Self,
        r: Result<(), Self::SinkError>,
    ) -> bool {
        true
    }

    /// Whether `poll_flush` may lead from `self` to `next` and return `r`.
    /// Where an impl does not say, it may do anything.
    open spec fn flushes(&self, next: &Self, r: Poll<Result<(), Self::SinkError>>) -> bool {
        true
    }

    /// Whether `poll_close` may lead from `self` to `next` and return `r`.
    /// Where an impl does not say, it may do anything.
    open spec fn closes(&self, next: &Self, r: Poll<Result<(), Self::SinkError>>) -> bool {
        true
    }

    /// Attempts to prepare the sink to receive a value.
    ///
    /// Returns `Ready(Ok(()))` when the sink can take an item, and `Pending`
    /// when it cannot yet: `waker` then fires once it may.
    fn poll_ready(&mut self, waker: &Waker) -> (r: Poll<Result<(), Self::SinkError>>)
        requires
            old(self).sink_wf(),
        ensures
            final(self).sink_wf(),
            old(self).readies(final(self), r),
    ;

    /// Begins to send a value to the sink. To be called after `poll_ready`
    /// has returned `Ready(Ok(()))`.
    fn start_send(&mut self, item: Self::SinkItem) -> (r: Result<(), Self::SinkError>)
        requires
            old(self).sink_wf(),
        ensures
            final(self).sink_wf(),
            old(self).sends(item, final(self), r),
    ;

    /// Flushes what was sent to its destination.
    fn poll_flush(&mut self, waker: &Waker) -> (r: Poll<Result<(), Self::SinkError>>)
        requires
            old(self).sink_wf(),
        ensures
            final(self).sink_wf(),
            old(self).flushes(final(self), r),
    ;

    /// Flushes what was sent and closes the sink.
    fn poll_close(&mut self, waker: &Waker) -> (r: Poll<Result<(), Self::SinkError>>)
        requires
            old(self).sink_wf(),
        ensures
            final(self).sink_wf(),
            old(self).closes(final(self), r),
    ;
}

} // verus!
