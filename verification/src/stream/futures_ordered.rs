//! A registry of futures that hands their outputs out in the order in which
//! the futures were added.

use vstd::prelude::*;
use std::collections::BTreeMap;
use std::task::Waker;
use crate::future::Future;
use crate::stream::FusedStream;
use crate::stream::futures_unordered::reversed;
use crate::stream::FuturesUnordered;
use crate::stream::ordered::is_running;
use crate::stream::ordered::lemma_registry_keeps_order;
use crate::stream::ordered::numbered;
use crate::stream::ordered::OrderedState;
use crate::stream::ordered::OrderWrapper;
use crate::stream::registry::holds_list;
use crate::stream::Stream;
use crate::task::Poll;

verus! {

/// An unbounded queue of futures whose outputs come out in the order in
/// which the futures went in.
///
/// The futures run side by side in an unordered registry. Each is stamped
/// with a sequence number when it is pushed; an output that arrives before
/// its turn waits in a staging area until every earlier output has been
/// handed out.
pub struct FuturesOrdered<Fut: Future> {
    in_progress_queue: FuturesUnordered<OrderWrapper<Fut>>,
    queued_outputs: BTreeMap<usize, Fut::Output>,
    next_incoming_index: usize,
    next_outgoing_index: usize,
}

impl<Fut: Future> FuturesOrdered<Fut> {
    /// What the queue holds.
    pub closed spec fn state(&self) -> OrderedState<Fut> {
        OrderedState {
            running: self.in_progress_queue.futures(),
            staged: self.queued_outputs@,
            next_out: self.next_outgoing_index,
            next_in: self.next_incoming_index,
            fresh: self.in_progress_queue.fresh(),
        }
    }

    /// Whether the queue has reported that it is empty, and no future was
    /// pushed since.
    pub closed spec fn reported_empty(&self) -> bool {
        self.in_progress_queue.reported_empty()
    }

    /// The queue's invariant: the inner registry is intact, and so is the
    /// bookkeeping of sequence numbers; and a queue that has reported that it
    /// is empty holds nothing.
    pub closed spec fn inv(&self) -> bool {
        &&& self.in_progress_queue.inv()
        &&& self.state().ordered()
        &&& self.in_progress_queue.reported_empty() ==> self.queued_outputs@ =~= Map::empty()
    }

    /// In a queue that meets its invariant the bookkeeping of sequence numbers
    /// is intact.
    pub proof fn lemma_inv_is_ordered(&self)
        requires
            self.inv(),
        ensures
            self.state().ordered(),
    {
    }

    /// Constructs a new, empty `FuturesOrdered`.
    pub fn new() -> (queue: FuturesOrdered<Fut>)
        ensures
            queue.inv(),
            !queue.reported_empty(),
            queue.state().running =~= Map::empty(),
            queue.state().staged =~= Map::empty(),
            queue.state().next_out == 0,
            queue.state().next_in == 0,
            queue.state().fresh =~= Seq::empty(),
    {
        let queue = FuturesOrdered {
            in_progress_queue: FuturesUnordered::new(),
            queued_outputs: BTreeMap::new(),
            next_incoming_index: 0,
            next_outgoing_index: 0,
        };
        queue
    }

    /// The number of futures in the queue: those that are still running and
    /// those whose output waits for its turn.
    pub fn len(&self) -> (n: usize)
        requires
            self.inv(),
        ensures
            n == self.state().running.len() + self.state().staged.len(),
            n == self.state().next_in - self.state().next_out,
    {
        self.in_progress_queue.len() + self.queued_outputs.len()
    }

    /// Whether the queue holds no future and no output.
    pub fn is_empty(&self) -> (b: bool)
        requires
            self.inv(),
        ensures
            b == (self.state().running =~= Map::empty() && self.state().staged =~= Map::empty()),
            b == (self.state().next_in == self.state().next_out),
    {
        self.in_progress_queue.is_empty() && self.queued_outputs.is_empty()
    }

    /// Pushes a future into the queue.
    ///
    /// The future gets the next sequence number and goes to the inner
    /// registry; it is not polled here.
    pub fn push(&mut self, future: Fut)
        requires
            old(self).inv(),
            future.pollable(),
            old(self).state().next_in < usize::MAX,
        ensures
            final(self).inv(),
            !final(self).reported_empty(),
            final(self).state().staged == old(self).state().staged,
            final(self).state().next_out == old(self).state().next_out,
            final(self).state().next_in == old(self).state().next_in + 1,
            exists|slot: int|
                {
                    &&& !(#[trigger] old(self).state().running.contains_key(slot))
                    &&& final(self).state().running =~= old(self).state().running.insert(
                        slot,
                        OrderWrapper { data: future, index: old(self).state().next_in },
                    )
                    &&& final(self).state().fresh =~= old(self).state().fresh.push(slot)
                },
    {
        let ghost before = self.state();
        let wrapped = OrderWrapper { data: future, index: self.next_incoming_index };
        self.next_incoming_index = self.next_incoming_index + 1;
        self.in_progress_queue.push(wrapped);
        proof {
            let after = self.state();
            let slot = choose|slot: int|
                {
                    &&& !(#[trigger] before.running.contains_key(slot))
                    &&& after.running =~= before.running.insert(slot, wrapped)
                };
            assert(after.running.contains_key(slot) && after.running[slot].index == before.next_in);
            assert forall|index: usize| before.next_out <= index < before.next_in implies
                after.staged.contains_key(index) || #[trigger] is_running(
                after.running,
                index,
            ) by {
                if !before.staged.contains_key(index) {
                    assert(is_running(before.running, index));
                    let s = choose|s: int| #[trigger]
                        before.running.contains_key(s) && before.running[s].index == index;
                    assert(after.running.contains_key(s) && after.running[s].index == index);
                }
            }
        }
    }
}

/// Converts a list of futures into a queue that yields their outputs in the
/// order of the list.
///
/// The futures are pushed in the order of the list: the `i`-th gets the
/// sequence number `i`.
pub fn futures_ordered<Fut: Future>(futures: Vec<Fut>) -> (queue: FuturesOrdered<Fut>)
    requires
        forall|i: int| 0 <= i < futures@.len() ==> (#[trigger] futures@[i]).pollable(),
    ensures
        queue.inv(),
        queue.state().staged =~= Map::empty(),
        queue.state().next_out == 0,
        queue.state().next_in == futures@.len(),
        holds_list(queue.state().running, numbered(futures@), queue.state().fresh),
{
    let mut rest = reversed(futures);
    let total = rest.len();
    let mut queue = FuturesOrdered::new();
    let ghost mut slots: Seq<int> = Seq::empty();
    while rest.len() > 0
        invariant
            queue.inv(),
            futures@.len() == total,
            rest@.len() + slots.len() == futures@.len(),
            forall|i: int|
                0 <= i < rest@.len() ==> #[trigger] rest@[i] == futures@[futures@.len() - 1 - i],
            forall|i: int| 0 <= i < futures@.len() ==> (#[trigger] futures@[i]).pollable(),
            queue.state().staged =~= Map::empty(),
            queue.state().next_out == 0,
            queue.state().next_in == slots.len(),
            queue.state().fresh == slots,
            holds_list(queue.state().running, numbered(futures@).take(slots.len() as int), slots),
        decreases rest@.len(),
    {
        let ghost before = queue.state().running;
        let ghost done = slots.len() as int;
        let fut = rest.pop().unwrap();
        queue.push(fut);
        proof {
            let after = queue.state().running;
            let wrapped = OrderWrapper { data: fut, index: done as usize };
            let slot = choose|slot: int|
                {
                    &&& !(#[trigger] before.contains_key(slot))
                    &&& after =~= before.insert(slot, wrapped)
                    &&& queue.state().fresh =~= slots.push(slot)
                };
            let earlier = slots;
            assert(!earlier.contains(slot));
            slots = earlier.push(slot);
            assert forall|at: int| after.contains_key(at) <==> slots.contains(at) by {
                if slots.contains(at) {
                    let k = choose|k: int| 0 <= k < slots.len() && slots[k] == at;
                    if k < done {
                        assert(earlier.contains(at));
                    }
                }
                if before.contains_key(at) {
                    assert(earlier.contains(at));
                    let k = choose|k: int| 0 <= k < earlier.len() && earlier[k] == at;
                    assert(slots[k] == at);
                }
                if at == slot {
                    assert(slots[done] == at);
                }
            }
        }
    }
    assert(numbered(futures@).take(futures@.len() as int) =~= numbered(futures@));
    queue
}

impl<Fut: Future> Default for FuturesOrdered<Fut> {
    fn default() -> (queue: FuturesOrdered<Fut>)
        ensures
            queue.inv(),
            queue.state().running =~= Map::empty(),
            queue.state().staged =~= Map::empty(),
            queue.state().next_out == 0,
            queue.state().next_in == 0,
    {
        FuturesOrdered::new()
    }
}

impl<Fut: Future> FuturesOrdered<Fut> {
    /// The states in which the stream may be polled.
    pub open spec fn wf(&self) -> bool {
        self.inv()
    }

    /// Whether a poll that starts in `self` may end in `next` and return `r`.
    pub open spec fn yields(&self, next: &Self, r: Poll<Option<Fut::Output>>) -> bool {
        &&& self.state().yields(next.state(), r)
        &&& next.reported_empty() == (r == Poll::<Option<Fut::Output>>::Ready(None))
    }

    /// Hands out the output that is due if it is there; otherwise polls the
    /// inner registry until that output arrives, and stages what arrives
    /// before it. A queue that holds nothing reports the end at once.
    pub fn poll_next(&mut self, waker: &Waker) -> (r: Poll<Option<Fut::Output>>)
        requires
            old(self).wf(),
        ensures
            final(self).wf(),
            old(self).yields(final(self), r),
            old(self).state().next_out == old(self).state().next_in ==> r == Poll::<
                Option<Fut::Output>,
            >::Ready(None),
    {
        let r = self.poll_queue(waker);
        proof {
            let start = old(self).state();
            if start.next_out == start.next_in {
                let (mid, rounds) = choose|mid: OrderedState<Fut>, rounds: nat| #[trigger]
                    start.stages_many(mid, rounds) && mid.finishes(self.state(), r);
                start.lemma_nothing_to_stage(mid, rounds);
                if r is Pending {
                } else if r->Ready_0 is Some {
                }
            }
        }
        r
    }

    /// As a `Stream`, this polls as `wf` and `yields` say.
    pub proof fn lemma_stream(&self, next: &Self, r: Poll<Option<Fut::Output>>)
        ensures
            Stream::wf(self) == self.wf(),
            Stream::yields(self, next, r) == self.yields(next, r),
    {
    }
}

impl<Fut: Future> Stream for FuturesOrdered<Fut> {
    type Item = Fut::Output;

    open spec fn wf(&self) -> bool {
        FuturesOrdered::wf(self)
    }

    open spec fn yields(&self, next: &Self, r: Poll<Option<Fut::Output>>) -> bool {
        FuturesOrdered::yields(self, next, r)
    }

    fn poll_next(&mut self, waker: &Waker) -> (r: Poll<Option<Fut::Output>>) {
        FuturesOrdered::poll_next(self, waker)
    }
}

impl<Fut: Future> FuturesOrdered<Fut> {
    /// One poll of the queue.
    fn poll_queue(&mut self, waker: &Waker) -> (r: Poll<Option<Fut::Output>>)
        requires
            old(self).inv(),
        ensures
            final(self).inv(),
            old(self).state().yields(final(self).state(), r),
            final(self).reported_empty() == (r == Poll::<Option<Fut::Output>>::Ready(None)),
    {
        let ghost start = self.state();
        let due = self.next_outgoing_index;
        match self.queued_outputs.remove(&due) {
            Some(out) => {
                self.next_outgoing_index = due + 1;
                return Poll::Ready(Some(out));
            },
            None => {},
        }
        assert(self.state().staged =~= start.staged);
        let ghost mut rounds: nat = 0;
        loop
            invariant
                self.in_progress_queue.inv(),
                self.state().ordered(),
                start == old(self).state(),
                !start.staged.contains_key(start.next_out),
                start.stages_many(self.state(), rounds),
                !self.state().staged.contains_key(self.state().next_out),
            decreases self.state().running.dom().len(),
        {
            let ghost before = self.state();
            match self.in_progress_queue.poll_next(waker) {
                Poll::Ready(Some(output)) => {
                    if output.index == self.next_outgoing_index {
                        self.next_outgoing_index = self.next_outgoing_index + 1;
                        let r = Poll::Ready(Some(output.data));
                        proof {
                            before.lemma_finish_keeps_ordered(self.state(), r);
                        }
                        return r;
                    } else {
                        let index = output.index;
                        self.queued_outputs.insert(index, output.data);
                        proof {
                            let after = self.state();
                            assert(before.inner_yields(after, Poll::Ready(Some(output))));
                            assert(before.stages(after));
                            before.lemma_stage_keeps_ordered(self.state());
                            rounds = rounds + 1;
                        }
                    }
                },
                Poll::Ready(None) => {
                    proof {
                        before.lemma_finish_keeps_ordered(self.state(), Poll::Ready(None));
                    }
                    return Poll::Ready(None);
                },
                Poll::Pending => {
                    proof {
                        before.lemma_finish_keeps_ordered(self.state(), Poll::Pending);
                    }
                    return Poll::Pending;
                },
            }
        }
    }

    /// Whether the stream has ended.
    pub open spec fn terminated(&self) -> bool {
        self.reported_empty()
    }

    /// Returns `true` if the stream should no longer be polled.
    pub fn is_terminated(&self) -> (b: bool)
        ensures
            b == self.terminated(),
    {
        self.in_progress_queue.is_terminated()
    }
}

impl<Fut: Future> FusedStream for FuturesOrdered<Fut> {
    open spec fn terminated(&self) -> bool {
        FuturesOrdered::terminated(self)
    }

    fn is_terminated(&self) -> (b: bool) {
        FuturesOrdered::is_terminated(self)
    }

    proof fn lemma_fused(&self, next: &Self, r: Poll<Option<Fut::Output>>) {
        if self.terminated() {
            self.in_progress_queue.lemma_reported_empty_is_empty();
            let start = self.state();
            let (mid, rounds) = choose|mid: OrderedState<Fut>, rounds: nat| #[trigger]
                start.stages_many(mid, rounds) && mid.finishes(next.state(), r);
            start.lemma_nothing_to_stage(mid, rounds);
            match r {
                Poll::Ready(Some(out)) => {
                    lemma_registry_keeps_order(
                        mid.running,
                        next.state().running,
                        Poll::Ready(Some(OrderWrapper { data: out, index: mid.next_out })),
                    );
                },
                Poll::Ready(None) => {},
                Poll::Pending => {
                    lemma_registry_keeps_order(mid.running, next.state().running, Poll::Pending);
                },
            }
        }
    }
}

} // verus!
