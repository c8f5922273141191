//! Running a future for every item of a stream, several at a time.

use vstd::prelude::*;
use std::task::Waker;
use crate::future::FusedFuture;
use crate::future::Future;
use crate::stream::FuturesUnordered;
use crate::stream::registry::joins;
use crate::stream::registry::registry_yields;
use crate::stream::Stream;
use crate::task::Poll;
use crate::task::poll_loop::PollLoop;
use crate::task::poll_loop::run_rounds;
use crate::task::poll_loop::runs_to;

verus! {

/// Future for the `for_each_concurrent` combinator: hands each item of a
/// stream to a function and runs the futures that the function builds side by
/// side, up to `limit` of them at a time where there is a limit.
pub struct ForEachConcurrent<St, Fut, F> {
    pub stream: Option<St>,
    pub f: F,
    pub futures: FuturesUnordered<Fut>,
    pub limit: Option<usize>,
}

/// What a round makes of what the registry returned: the poll goes on after
/// progress, ends when the stream and every future are done, and is pending
/// otherwise.
pub open spec fn verdict(
    from_registry: Poll<Option<()>>,
    stream_gone: bool,
    progressed: bool,
) -> Option<Poll<()>> {
    match from_registry {
        Poll::Ready(Some(_)) => None,
        Poll::Ready(None) => if stream_gone {
            Some(Poll::Ready(()))
        } else if progressed {
            None
        } else {
            Some(Poll::Pending)
        },
        Poll::Pending => if progressed {
            None
        } else {
            Some(Poll::Pending)
        },
    }
}

impl<St, Fut, F> ForEachConcurrent<St, Fut, F> where
    St: Stream,
    F: FnMut(St::Item) -> Fut,
    Fut: Future<Output = ()>,
 {
    /// Creates a new `ForEachConcurrent`. A limit of zero is no limit.
    pub fn new(stream: St, limit: Option<usize>, f: F) -> (for_each: ForEachConcurrent<St, Fut, F>)
        ensures
            for_each.stream == Some(stream),
            for_each.f == f,
            for_each.limit == (if limit == Some(0usize) {
                None
            } else {
                limit
            }),
            for_each.futures.inv(),
            for_each.futures.futures() =~= Map::empty(),
    {
        let limit = match limit {
            Some(n) => if n == 0 {
                None
            } else {
                Some(n)
            },
            None => None,
        };
        ForEachConcurrent { stream: Some(stream), f, futures: FuturesUnordered::new(), limit }
    }

    /// Whether one more future may be started.
    pub open spec fn has_room(&self) -> bool {
        self.limit is None || self.futures.futures().len() < self.limit->0
    }

    /// What the first part of a round does: where there is room and the
    /// stream has not ended, the stream is asked for an item, and the future
    /// for the item is put into a slot of its own.
    pub open spec fn admits(
        &self,
        next_stream: Option<St>,
        next_futures: Map<int, Fut>,
        progressed: bool,
    ) -> bool {
        if self.has_room() && self.stream is Some {
            ||| {
                &&& !progressed
                &&& next_stream is Some
                &&& self.stream->0.yields(&next_stream->0, Poll::Pending)
                &&& next_futures =~= self.futures.futures()
            }
            ||| {
                &&& !progressed
                &&& next_stream is None
                &&& exists|ended: St| #[trigger] self.stream->0.yields(&ended, Poll::Ready(None))
                &&& next_futures =~= self.futures.futures()
            }
            ||| {
                &&& progressed
                &&& next_stream is Some
                &&& exists|item: St::Item, fut: Fut|
                    {
                        &&& self.stream->0.yields(&next_stream->0, Poll::Ready(Some(item)))
                        &&& #[trigger] call_ensures(self.f, (item,), fut)
                        &&& joins(self.futures.futures(), fut, next_futures)
                    }
            }
        } else {
            !progressed && next_stream == self.stream && next_futures =~= self.futures.futures()
        }
    }

    /// Asks the stream for an item if there is room for one more future.
    fn take_in(&mut self, waker: &Waker) -> (progressed: bool)
        requires
            old(self).loop_inv(),
        ensures
            final(self).loop_inv(),
            final(self).f == old(self).f,
            final(self).limit == old(self).limit,
            old(self).admits(final(self).stream, final(self).futures.futures(), progressed),
    {
        let current_len = self.futures.len();
        let room = match self.limit {
            Some(limit) => limit > current_len,
            None => true,
        };
        if !room {
            return false;
        }
        match self.stream.take() {
            None => false,
            Some(mut stream) => {
                match stream.poll_next(waker) {
                    Poll::Ready(Some(item)) => {
                        let fut = (self.f)(item);
                        self.futures.push(fut);
                        self.stream = Some(stream);
                        true
                    },
                    Poll::Ready(None) => {
                        false
                    },
                    Poll::Pending => {
                        self.stream = Some(stream);
                        false
                    },
                }
            },
        }
    }

    /// The states in which a round of the poll may begin.
    pub open spec fn loop_inv(&self) -> bool {
        &&& self.stream is Some ==> self.stream->0.wf()
        &&& self.futures.inv()
        &&& self.limit != Some(0usize)
        &&& forall|item: St::Item| #[trigger] call_requires(self.f, (item,))
        &&& forall|item: St::Item, fut: Fut| #[trigger]
            call_ensures(self.f, (item,), fut) ==> fut.pollable()
    }

    /// What holds of the state that a poll leaves when it returns `Ready`.
    pub open spec fn ready_inv(&self) -> bool {
        self.loop_inv()
    }

    /// Whether a round that starts in `self` may end in `next`, with `out` as the
    /// result of the poll, or with `None` where the poll goes on.
    pub open spec fn round(&self, next: &Self, out: Option<Poll<()>>) -> bool {
        &&& next.f == self.f
        &&& next.limit == self.limit
        &&& next.futures.inv()
        &&& exists|admitted: Map<int, Fut>, progressed: bool, from_registry: Poll<Option<()>>|
            {
                &&& self.admits(next.stream, admitted, progressed)
                &&& #[trigger] registry_yields(admitted, next.futures.futures(), from_registry)
                &&& out == #[trigger] verdict(from_registry, next.stream is None, progressed)
            }
    }

    /// One round: starts a future for the next item if there is room and the stream
    /// has one, and polls the futures that asked for it.
    pub fn step(&mut self, waker: &Waker) -> (out: Option<Poll<()>>)
        requires
            old(self).loop_inv(),
        ensures
            old(self).round(final(self), out),
            out matches Some(Poll::Ready(_)) ==> final(self).ready_inv(),
            !(out matches Some(Poll::Ready(_))) ==> final(self).loop_inv(),
    {
        let progressed = self.take_in(waker);
        let ghost admitted = self.futures.futures();
        let from_registry = self.futures.poll_next(waker);
        assert(registry_yields(admitted, self.futures.futures(), from_registry));
        let out = match from_registry {
            Poll::Ready(Some(_)) => None,
            Poll::Ready(None) => {
                if self.stream.is_none() {
                    Some(Poll::Ready(()))
                } else if progressed {
                    None
                } else {
                    Some(Poll::Pending)
                }
            },
            Poll::Pending => {
                if progressed {
                    None
                } else {
                    Some(Poll::Pending)
                }
            },
        };
        assert(out == verdict(from_registry, self.stream is None, progressed));
        out
    }

    /// The rounds of the poll are those that `loop_inv`, `ready_inv` and `round`
    /// describe.
    pub proof fn lemma_poll_loop(&self, next: &Self, out: Option<Poll<()>>)
        ensures
            PollLoop::loop_inv(self) == self.loop_inv(),
            PollLoop::ready_inv(self) == self.ready_inv(),
            PollLoop::round(self, next, out) == self.round(next, out),
    {
    }
}

impl<St, Fut, F> PollLoop for ForEachConcurrent<St, Fut, F> where
    St: Stream,
    F: FnMut(St::Item) -> Fut,
    Fut: Future<Output = ()>,
 {
    type Ready = ();

    open spec fn loop_inv(&self) -> bool {
        ForEachConcurrent::loop_inv(self)
    }

    open spec fn ready_inv(&self) -> bool {
        ForEachConcurrent::ready_inv(self)
    }

    open spec fn round(&self, next: &Self, out: Option<Poll<()>>) -> bool {
        ForEachConcurrent::round(self, next, out)
    }

    fn step(&mut self, waker: &Waker) -> (out: Option<Poll<()>>) {
        ForEachConcurrent::step(self, waker)
    }
}

impl<St, Fut, F> ForEachConcurrent<St, Fut, F> where
    St: Stream,
    F: FnMut(St::Item) -> Fut,
    Fut: Future<Output = ()>,
 {
    /// The states in which the future may be polled.
    pub open spec fn pollable(&self) -> bool {
        self.loop_inv()
    }

    /// Whether a poll that starts in `self` may end in `next` and return `r`.
    pub open spec fn polls_to(&self, next: &Self, r: Poll<()>) -> bool {
        runs_to(*self, *next, r)
    }

    /// Starts futures for the items that the stream has ready, as far as
    /// there is room, and polls the futures that asked for it, for as long as
    /// that makes progress.
    pub fn poll(&mut self, waker: &Waker) -> (r: Poll<()>)
        requires
            old(self).pollable(),
        ensures
            old(self).polls_to(final(self), r),
            r is Pending ==> final(self).pollable(),
    {
        run_rounds(self, waker)
    }

    /// As a `Future`, this polls as `pollable` and `polls_to` say.
    pub proof fn lemma_future(&self, next: &Self, r: Poll<()>)
        ensures
            Future::pollable(self) == self.pollable(),
            Future::polls_to(self, next, r) == self.polls_to(next, r),
    {
    }
}

impl<St, Fut, F> Future for ForEachConcurrent<St, Fut, F> where
    St: Stream,
    F: FnMut(St::Item) -> Fut,
    Fut: Future<Output = ()>,
 {
    type Output = ();

    open spec fn pollable(&self) -> bool {
        ForEachConcurrent::pollable(self)
    }

    open spec fn polls_to(&self, next: &Self, r: Poll<()>) -> bool {
        ForEachConcurrent::polls_to(self, next, r)
    }

    fn poll(&mut self, waker: &Waker) -> (r: Poll<()>) {
        ForEachConcurrent::poll(self, waker)
    }
}

impl<St, Fut, F> ForEachConcurrent<St, Fut, F> where
    St: Stream,
    F: FnMut(St::Item) -> Fut,
    Fut: Future<Output = ()>,
 {
    /// Whether the future has completed.
    pub open spec fn terminated(&self) -> bool {
        self.stream is None && self.futures.count() == 0
    }

    /// Returns `true` if the future should no longer be polled.
    pub fn is_terminated(&self) -> (b: bool)
        ensures
            b == self.terminated(),
    {
        self.stream.is_none() && self.futures.is_empty()
    }
}

impl<St, Fut, F> FusedFuture for ForEachConcurrent<St, Fut, F> where
    St: Stream,
    F: FnMut(St::Item) -> Fut,
    Fut: Future<Output = ()>,
 {
    open spec fn terminated(&self) -> bool {
        ForEachConcurrent::terminated(self)
    }

    fn is_terminated(&self) -> (b: bool) {
        ForEachConcurrent::is_terminated(self)
    }

    proof fn lemma_fused(&self, next: &Self, r: Poll<()>) {
        if r is Ready {
            next.futures.lemma_count_is_len();
        }
    }
}

} // verus!
