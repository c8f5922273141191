//! A sink with a buffer in front of it.

use vstd::prelude::*;
use std::collections::VecDeque;
use std::task::Waker;
use crate::sink::Sink;
use crate::stream::Stream;
use crate::task::Poll;

verus! {

/// Sink for the `buffer` combinator: takes up to `capacity` items that the
/// underlying sink cannot take yet, and hands them on in their order as soon
/// as it can.
#[derive(Debug)]
pub struct Buffer<Si: Sink> {
    pub sink: Si,
    pub buf: VecDeque<Si::SinkItem>,
    pub capacity: usize,
}

/// What stands for a `Buffer` in the relations below: the underlying sink and
/// the items that wait in front of it.
pub struct Buffered<Si: Sink> {
    pub sink: Si,
    pub waiting: Seq<Si::SinkItem>,
}

impl<Si: Sink> Buffered<Si> {
    /// One item goes from the buffer to the sink, which can take it; and
    /// where more items wait, the sink says that it can take the next.
    pub open spec fn passes_one(self, next: Self) -> bool {
        &&& self.waiting.len() > 0
        &&& next.waiting == self.waiting.skip(1)
        &&& exists|fed: Si|
            {
                &&& #[trigger] self.sink.sends(self.waiting[0], &fed, Ok(()))
                &&& if next.waiting.len() > 0 {
                    fed.readies(&next.sink, Poll::Ready(Ok(())))
                } else {
                    next.sink == fed
                }
            }
    }

    /// `passed` items in a row go from the buffer to the sink.
    pub open spec fn passes(self, next: Self, passed: nat) -> bool
        decreases passed,
    {
        if passed == 0 {
            next == self
        } else {
            exists|mid: Self| self.passes(mid, (passed - 1) as nat) && #[trigger] mid.passes_one(next)
        }
    }

    /// How handing items on ends: no item is left; or the sink fails to take
    /// an item, which is lost; or the sink takes an item and cannot take the
    /// next yet.
    pub open spec fn stops(self, next: Self, r: Poll<Result<(), Si::SinkError>>) -> bool {
        ||| self.waiting.len() == 0 && r == Poll::<Result<(), Si::SinkError>>::Ready(Ok(()))
            && next == self
        ||| {
            &&& self.waiting.len() > 0
            &&& next.waiting == self.waiting.skip(1)
            &&& r matches Poll::Ready(Err(e))
            &&& self.sink.sends(self.waiting[0], &next.sink, Err(e))
        }
        ||| {
            &&& self.waiting.len() > 1
            &&& next.waiting == self.waiting.skip(1)
            &&& r != Poll::<Result<(), Si::SinkError>>::Ready(Ok(()))
            &&& exists|fed: Si| #[trigger]
                self.sink.sends(self.waiting[0], &fed, Ok(())) && fed.readies(&next.sink, r)
        }
    }

    /// What an attempt to empty the buffer does: the sink is asked whether it
    /// can take an item, and as long as it can, items are handed on.
    pub open spec fn empties(self, next: Self, r: Poll<Result<(), Si::SinkError>>) -> bool {
        ||| {
            &&& r != Poll::<Result<(), Si::SinkError>>::Ready(Ok(()))
            &&& self.sink.readies(&next.sink, r)
            &&& next.waiting == self.waiting
        }
        ||| exists|readied: Si, mid: Self, passed: nat|
            {
                &&& self.sink.readies(&readied, Poll::Ready(Ok(())))
                &&& #[trigger] (Buffered { sink: readied, waiting: self.waiting }).passes(
                    mid,
                    passed,
                )
                &&& mid.stops(next, r)
            }
    }
}

impl<Si: Sink> Buffer<Si> {
    /// What the buffer holds.
    pub open spec fn view(&self) -> Buffered<Si> {
        Buffered { sink: self.sink, waiting: self.buf@ }
    }

    /// Creates a new `Buffer` that holds up to `capacity` items.
    pub fn new(sink: Si, capacity: usize) -> (buffer: Buffer<Si>)
        ensures
            buffer.sink == sink,
            buffer.buf@ == Seq::<Si::SinkItem>::empty(),
            buffer.capacity == capacity,
    {
        Buffer { sink, buf: VecDeque::with_capacity(capacity), capacity }
    }

    /// A reference to the underlying sink.
    pub fn get_ref(&self) -> (sink: &Si)
        ensures
            *sink == self.sink,
    {
        &self.sink
    }

    /// Hands the items that wait on to the sink, as far as the sink takes
    /// them.
    pub fn try_empty_buffer(&mut self, waker: &Waker) -> (r: Poll<Result<(), Si::SinkError>>)
        requires
            old(self).sink.sink_wf(),
        ensures
            final(self).sink.sink_wf(),
            final(self).capacity == old(self).capacity,
            old(self)@.empties(final(self)@, r),
            r == Poll::<Result<(), Si::SinkError>>::Ready(Ok(())) ==> final(self).buf@.len() == 0,
    {
        let ghost start = self@;
        match self.sink.poll_ready(waker) {
            Poll::Pending => {
                return Poll::Pending;
            },
            Poll::Ready(Err(e)) => {
                return Poll::Ready(Err(e));
            },
            Poll::Ready(Ok(unit)) => {
                assert(unit == ());
            },
        }
        let ghost readied = self@;
        let ghost mut passed: nat = 0;
        while self.buf.len() > 0
            invariant
                self.sink.sink_wf(),
                self.capacity == old(self).capacity,
                start == old(self)@,
                start.sink.readies(&readied.sink, Poll::Ready(Ok(()))),
                readied.waiting == start.waiting,
                readied.passes(self@, passed),
            decreases self.buf@.len(),
        {
            let ghost before = self@;
            let item = self.buf.pop_front().unwrap();
            match self.sink.start_send(item) {
                Err(e) => {
                    return Poll::Ready(Err(e));
                },
                Ok(unit) => {
                    assert(unit == ());
                },
            }
            if self.buf.len() > 0 {
                match self.sink.poll_ready(waker) {
                    Poll::Ready(Ok(unit)) => {
                        assert(unit == ());
                    },
                    other => {
                        return other;
                    },
                }
            }
            proof {
                assert(before.passes_one(self@));
                passed = passed + 1;
            }
        }
        Poll::Ready(Ok(()))
    }
}

impl<Si: Sink> Sink for Buffer<Si> {
    type SinkItem = Si::SinkItem;

    type SinkError = Si::SinkError;

    open spec fn sink_wf(&self) -> bool {
        self.sink.sink_wf()
    }

    /// A buffer without capacity is its sink. Otherwise the buffer is emptied
    /// as far as the sink allows, and there is room unless `capacity` items
    /// are still waiting.
    open spec fn readies(&self, next: &Self, r: Poll<Result<(), Si::SinkError>>) -> bool {
        &&& next.capacity == self.capacity
        &&& if self.capacity == 0 {
            self.sink.readies(&next.sink, r) && next.buf@ == self.buf@
        } else {
            exists|emptied: Poll<Result<(), Si::SinkError>>|
                {
                    &&& #[trigger] self@.empties(next@, emptied)
                    &&& r == (if emptied matches Poll::Ready(Err(e)) {
                        emptied
                    } else if next.buf@.len() >= self.capacity {
                        Poll::Pending
                    } else {
                        Poll::Ready(Ok(()))
                    })
                }
        }
    }

    /// A buffer without capacity hands the item to its sink; any other puts
    /// it at the end of the items that wait.
    open spec fn sends(&self, item: Si::SinkItem, next: &Self, r: Result<(), Si::SinkError>) -> bool {
        &&& next.capacity == self.capacity
        &&& if self.capacity == 0 {
            self.sink.sends(item, &next.sink, r) && next.buf@ == self.buf@
        } else {
            r is Ok && next.sink == self.sink && next.buf@ == self.buf@.push(item)
        }
    }

    /// The buffer is emptied first; once it is empty the sink is flushed.
    open spec fn flushes(&self, next: &Self, r: Poll<Result<(), Si::SinkError>>) -> bool {
        &&& next.capacity == self.capacity
        &&& {
            ||| r != Poll::<Result<(), Si::SinkError>>::Ready(Ok(())) && self@.empties(next@, r)
            ||| exists|emptied: Buffered<Si>|
                {
                    &&& #[trigger] self@.empties(emptied, Poll::Ready(Ok(())))
                    &&& emptied.sink.flushes(&next.sink, r)
                    &&& next.buf@ == emptied.waiting
                }
        }
    }

    /// The buffer is emptied first; once it is empty the sink is closed.
    open spec fn closes(&self, next: &Self, r: Poll<Result<(), Si::SinkError>>) -> bool {
        &&& next.capacity == self.capacity
        &&& {
            ||| r != Poll::<Result<(), Si::SinkError>>::Ready(Ok(())) && self@.empties(next@, r)
            ||| exists|emptied: Buffered<Si>|
                {
                    &&& #[trigger] self@.empties(emptied, Poll::Ready(Ok(())))
                    &&& emptied.sink.closes(&next.sink, r)
                    &&& next.buf@ == emptied.waiting
                }
        }
    }

    fn poll_ready(&mut self, waker: &Waker) -> (r: Poll<Result<(), Si::SinkError>>) {
        if self.capacity == 0 {
            return self.sink.poll_ready(waker);
        }
        let emptied = self.try_empty_buffer(waker);
        match emptied {
            Poll::Ready(Err(e)) => Poll::Ready(Err(e)),
            _ => {
                if self.buf.len() >= self.capacity {
                    Poll::Pending
                } else {
                    Poll::Ready(Ok(()))
                }
            },
        }
    }

    fn start_send(&mut self, item: Si::SinkItem) -> (r: Result<(), Si::SinkError>) {
        if self.capacity == 0 {
            self.sink.start_send(item)
        } else {
            self.buf.push_back(item);
            Ok(())
        }
    }

    fn poll_flush(&mut self, waker: &Waker) -> (r: Poll<Result<(), Si::SinkError>>) {
        match self.try_empty_buffer(waker) {
            Poll::Ready(Ok(unit)) => {
                assert(unit == ());
            },
            other => {
                return other;
            },
        }
        self.sink.poll_flush(waker)
    }

    fn poll_close(&mut self, waker: &Waker) -> (r: Poll<Result<(), Si::SinkError>>) {
        match self.try_empty_buffer(waker) {
            Poll::Ready(Ok(unit)) => {
                assert(unit == ());
            },
            other => {
                return other;
            },
        }
        self.sink.poll_close(waker)
    }
}

impl<Si: Sink + Stream> Stream for Buffer<Si> {
    type Item = <Si as Stream>::Item;

    open spec fn wf(&self) -> bool {
        self.sink.wf()
    }

    open spec fn yields(&self, next: &Self, r: Poll<Option<<Si as Stream>::Item>>) -> bool {
        &&& self.sink.yields(&next.sink, r)
        &&& next.buf == self.buf
        &&& next.capacity == self.capacity
    }

    fn poll_next(&mut self, waker: &Waker) -> (r: Poll<Option<<Si as Stream>::Item>>) {
        self.sink.poll_next(waker)
    }
}

} // verus!
