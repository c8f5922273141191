//! A registry of futures that runs them side by side and polls only those that
//! asked for it.

use vstd::prelude::*;
use std::collections::VecDeque;
use std::sync::Arc;
use std::task::Waker;
use crate::future::completes_with;
use crate::future::Future;
use crate::stream::FusedStream;
use crate::stream::ready_queue::ReadyQueue;
use crate::stream::ready_queue::Task;
use crate::stream::registry::advances;
use crate::stream::registry::advances_once;
use crate::stream::registry::greeted;
use crate::stream::registry::hands_out;
use crate::stream::registry::holds_list;
use crate::stream::registry::joins;
use crate::stream::registry::lemma_advances_keeps_slots;
use crate::stream::registry::lemma_empty_registry_is_done;
use crate::stream::registry::polls_fresh_first;
use crate::stream::registry::registry_yields;
use crate::stream::registry::without;
use crate::stream::Stream;
use crate::task::ArcWake;
use crate::task::Poll;
use crate::task::YIELD_EVERY;

verus! {

/// One entry of the arena: a future in flight, in a heap cell of its own so
/// that it stays where it is until it is released, and the waker bound to the
/// entry's position.
struct Slot<Fut> {
    future: Box<Fut>,
    task: Arc<Task>,
    waker: Waker,
}

/// A set of futures that may complete in any order.
///
/// Futures are added with `push` and run when the registry is polled. A poll
/// gives every future that was pushed since the last poll its first poll, and
/// then takes the slots that were woken since they were last polled out of the
/// ready queue and polls only those; the output of the first future that
/// completes is handed out. Each future's output is handed out once, some
/// time after the future is ready: the order is the order of completion, not
/// of insertion.
pub struct FuturesUnordered<Fut> {
    slots: Vec<Option<Slot<Fut>>>,
    free: Vec<usize>,
    fresh: VecDeque<usize>,
    len: usize,
    queue: Arc<ReadyQueue>,
    terminated: bool,
}

impl<Fut: Future> FuturesUnordered<Fut> {
    /// The futures in flight, each under the position of its slot.
    pub closed spec fn futures(&self) -> Map<int, Fut> {
        Map::new(
            |slot: int| 0 <= slot < self.slots@.len() && self.slots@[slot] is Some,
            |slot: int| *self.slots@[slot]->0.future,
        )
    }

    /// The slots of the futures that have not been polled yet, in the order
    /// in which the futures were pushed.
    pub closed spec fn fresh(&self) -> Seq<int> {
        Seq::new(self.fresh@.len(), |i: int| self.fresh@[i] as int)
    }

    /// Whether the registry has reported that it holds no future, and none was
    /// added since.
    pub closed spec fn reported_empty(&self) -> bool {
        self.terminated
    }

    /// The registry's invariant: the count is the number of futures in
    /// flight, the free list names released slots, each once, the fresh list
    /// names slots that hold a future, each once, every future in flight
    /// may be polled, and the owner behind each slot's waker is bound to that
    /// slot and to the registry's queue.
    pub closed spec fn inv(&self) -> bool {
        &&& forall|slot: int|
            0 <= slot < self.slots@.len() && (#[trigger] self.slots@[slot]) is Some ==> {
                &&& self.slots@[slot]->0.task.slot == slot
                &&& self.slots@[slot]->0.task.queue == self.queue
            }
        &&& self.fresh().no_duplicates()
        &&& forall|i: int|
            0 <= i < self.fresh().len() ==> self.futures().contains_key(#[trigger] self.fresh()[i])
        &&& self.futures().dom().finite()
        &&& self.len == self.futures().dom().len()
        &&& forall|k: int|
            0 <= k < self.free@.len() ==> 0 <= #[trigger] self.free@[k] < self.slots@.len()
                && self.slots@[self.free@[k] as int] is None
        &&& self.free@.no_duplicates()
        &&& forall|slot: int|
            self.futures().contains_key(slot) ==> (#[trigger] self.futures()[slot]).pollable()
        &&& self.terminated ==> self.len == 0
    }

    /// The count is the number of futures in flight.
    pub proof fn lemma_count_is_len(&self)
        requires
            self.inv(),
        ensures
            self.count() == self.futures().len(),
            self.futures() =~= Map::empty() <==> self.count() == 0,
    {
    }

    /// A registry that has reported that it is empty holds no future.
    pub proof fn lemma_reported_empty_is_empty(&self)
        requires
            self.inv(),
            self.reported_empty(),
        ensures
            self.futures() =~= Map::empty(),
    {
    }

    /// Constructs a new, empty registry.
    pub fn new() -> (registry: FuturesUnordered<Fut>)
        ensures
            registry.inv(),
            registry.futures() =~= Map::empty(),
            registry.fresh() =~= Seq::empty(),
            !registry.reported_empty(),
    {
        let registry = FuturesUnordered {
            slots: Vec::new(),
            free: Vec::new(),
            fresh: VecDeque::new(),
            len: 0,
            queue: Arc::new(ReadyQueue::new()),
            terminated: false,
        };
        assert(registry.futures().dom() =~= Set::empty());
        registry
    }

    /// The number of futures that the registry counts as in flight. In every
    /// registry that meets its invariant this is the number of futures that
    /// are in flight.
    pub closed spec fn count(&self) -> nat {
        self.len as nat
    }

    /// The number of futures in flight.
    pub fn len(&self) -> (n: usize)
        ensures
            n == self.count(),
            self.inv() ==> n == self.futures().len(),
    {
        self.len
    }

    /// Whether no future is in flight.
    pub fn is_empty(&self) -> (b: bool)
        ensures
            b == (self.count() == 0),
            self.inv() ==> b == (self.futures().len() == 0),
            self.inv() ==> b == (self.futures() =~= Map::empty()),
    {
        self.len == 0
    }

    /// Adds a future to the registry.
    ///
    /// The future is put into a slot of the arena and is due for its first
    /// poll at the next poll of the registry; it is not polled here.
    pub fn push(&mut self, future: Fut)
        requires
            old(self).inv(),
            future.pollable(),
        ensures
            final(self).inv(),
            !final(self).reported_empty(),
            final(self).futures().len() == old(self).futures().len() + 1,
            joins(old(self).futures(), future, final(self).futures()),
            exists|slot: int|
                {
                    &&& !(#[trigger] old(self).futures().contains_key(slot))
                    &&& final(self).futures() =~= old(self).futures().insert(slot, future)
                    &&& final(self).fresh() =~= old(self).fresh().push(slot)
                },
    {
        let ghost before = self.futures();
        let ghost fresh = self.fresh();
        let slot = match self.free.pop() {
            Some(slot) => slot,
            None => {
                self.slots.push(None);
                self.slots.len() - 1
            },
        };
        let task = Arc::new(Task::new(self.queue.clone(), slot));
        let waker = ArcWake::into_waker(task.clone());
        self.slots.set(slot, Some(Slot { future: Box::new(future), task, waker }));
        assert(self.futures() =~= before.insert(slot as int, future));
        proof {
            let slots = vstd::set_lib::set_int_range(0, self.slots@.len() as int);
            vstd::set_lib::lemma_int_range(0, self.slots@.len() as int);
            vstd::set_lib::lemma_len_subset(self.futures().dom(), slots);
        }
        assert(self.len < self.slots.len());
        self.len = self.len + 1;
        self.terminated = false;
        self.fresh.push_back(slot);
        proof {
            assert(self.fresh() =~= fresh.push(slot as int));
        }
    }

    /// The positions of the slots that hold a future, in rising order.
    pub fn slots(&self) -> (positions: Vec<usize>)
        requires
            self.inv(),
        ensures
            forall|i: int, j: int| 0 <= i < j < positions@.len() ==> positions@[i] < positions@[j],
            forall|slot: int|
                self.futures().contains_key(slot) <==> exists|k: int|
                    0 <= k < positions@.len() && #[trigger] positions@[k] == slot,
    {
        let mut positions: Vec<usize> = Vec::new();
        let mut slot: usize = 0;
        while slot < self.slots.len()
            invariant
                slot <= self.slots@.len(),
                forall|k: int| 0 <= k < positions@.len() ==> #[trigger] positions@[k] < slot,
                forall|i: int, j: int|
                    0 <= i < j < positions@.len() ==> positions@[i] < positions@[j],
                forall|at: int|
                    0 <= at < slot && self.slots@[at] is Some <==> exists|k: int|
                        0 <= k < positions@.len() && #[trigger] positions@[k] == at,
            decreases self.slots@.len() - slot,
        {
            let ghost before = positions@;
            if self.slots[slot].is_some() {
                positions.push(slot);
                assert(positions@[before.len() as int] == slot);
            }
            assert forall|at: int|
                0 <= at < slot + 1 && self.slots@[at] is Some <==> exists|k: int|
                    0 <= k < positions@.len() && #[trigger] positions@[k] == at by {
                if 0 <= at < slot && self.slots@[at] is Some {
                    let k = choose|k: int| 0 <= k < before.len() && #[trigger] before[k] == at;
                    assert(positions@[k] == at);
                }
            }
            slot = slot + 1;
        }
        positions
    }

    /// A mutable reference to the future in `slot`, which stays where it is.
    ///
    /// What the caller does to the future is what the registry holds from
    /// then on: the registry is intact as long as the future may still be
    /// polled.
    pub fn future_mut(&mut self, slot: usize) -> (future: Option<&mut Fut>)
        requires
            old(self).inv(),
        ensures
            future is Some == old(self).futures().contains_key(slot as int),
            future is Some ==> *future->0 == old(self).futures()[slot as int],
            future is Some ==> final(self).futures() =~= old(self).futures().insert(
                slot as int,
                *final(future->0),
            ),
            future is Some ==> final(self).reported_empty() == old(self).reported_empty(),
            future is Some ==> final(self).fresh() == old(self).fresh(),
            future is Some && final(future->0).pollable() ==> final(self).inv(),
            future is None ==> *final(self) == *old(self),
    {
        if slot >= self.slots.len() {
            return None;
        }
        if self.slots[slot].is_none() {
            return None;
        }
        Some(self.borrow_future(slot))
    }

    /// Borrows the future of a slot that holds one.
    fn borrow_future(&mut self, slot: usize) -> (future: &mut Fut)
        requires
            slot < old(self).slots@.len(),
            old(self).slots@[slot as int] is Some,
        ensures
            *future == *old(self).slots@[slot as int]->0.future,
            final(self).slots@.len() == old(self).slots@.len(),
            final(self).slots@[slot as int] is Some,
            *final(self).slots@[slot as int]->0.future == *final(future),
            final(self).slots@[slot as int]->0.task == old(self).slots@[slot as int]->0.task,
            final(self).queue == old(self).queue,
            forall|at: int|
                0 <= at < old(self).slots@.len() && at != slot ==> #[trigger] final(self).slots@[at]
                    == old(self).slots@[at],
            final(self).free == old(self).free,
            final(self).fresh == old(self).fresh,
            final(self).len == old(self).len,
            final(self).terminated == old(self).terminated,
    {
        let entry = self.slots[slot].as_mut().unwrap();
        &mut *entry.future
    }

    /// Takes `slot` off the list of the slots that have not been polled yet.
    fn forget_fresh(&mut self, slot: usize)
        requires
            old(self).fresh().no_duplicates(),
        ensures
            final(self).fresh() =~= without(old(self).fresh(), slot as int),
            final(self).slots == old(self).slots,
            final(self).queue == old(self).queue,
            final(self).free == old(self).free,
            final(self).len == old(self).len,
            final(self).terminated == old(self).terminated,
    {
        let ghost fresh = self.fresh();
        let mut i: usize = 0;
        while i < self.fresh.len()
            invariant
                i <= self.fresh@.len(),
                self.fresh() == fresh,
                self.slots == old(self).slots,
                self.queue == old(self).queue,
                self.free == old(self).free,
                self.len == old(self).len,
                self.terminated == old(self).terminated,
                fresh == old(self).fresh(),
                fresh.no_duplicates(),
                forall|k: int| 0 <= k < i ==> fresh[k] != slot,
            decreases self.fresh@.len() - i,
        {
            if self.fresh[i] == slot {
                let _ = self.fresh.remove(i);
                proof {
                    assert(fresh[i as int] == slot);
                    assert(fresh.index_of(slot as int) == i);
                }
                return ;
            }
            i = i + 1;
        }
    }

    /// Drops the future in `slot` where it is, without polling it, and
    /// releases the slot. Returns whether the slot held a future.
    pub fn cancel(&mut self, slot: usize) -> (cancelled: bool)
        requires
            old(self).inv(),
        ensures
            final(self).inv(),
            cancelled == old(self).futures().contains_key(slot as int),
            final(self).futures() =~= old(self).futures().remove(slot as int),
            final(self).fresh() =~= without(old(self).fresh(), slot as int),
            final(self).reported_empty() == old(self).reported_empty(),
    {
        if slot >= self.slots.len() {
            return false;
        }
        let ghost before = self.futures();
        let mut taken: Option<Slot<Fut>> = None;
        std::mem::swap(&mut self.slots[slot], &mut taken);
        match taken {
            None => {
                assert(self.futures() =~= before);
                false
            },
            Some(_) => {
                assert(self.futures() =~= before.remove(slot as int));
                self.free.push(slot);
                self.len = self.len - 1;
                self.forget_fresh(slot);
                true
            },
        }
    }

    /// Polls the future in `slot`, which has had its first poll or is about
    /// to have it. A future that completes is released.
    fn poll_slot(&mut self, slot: usize) -> (out: Option<Fut::Output>)
        requires
            old(self).inv(),
            old(self).futures().contains_key(slot as int),
            !old(self).fresh().contains(slot as int),
        ensures
            final(self).inv(),
            final(self).fresh() == old(self).fresh(),
            final(self).reported_empty() == old(self).reported_empty(),
            match out {
                Some(value) => {
                    &&& completes_with(old(self).futures()[slot as int], value)
                    &&& final(self).futures() =~= old(self).futures().remove(slot as int)
                },
                None => {
                    &&& final(self).futures().contains_key(slot as int)
                    &&& old(self).futures()[slot as int].polls_to(
                        &final(self).futures()[slot as int],
                        Poll::Pending,
                    )
                    &&& final(self).futures() =~= old(self).futures().insert(
                        slot as int,
                        final(self).futures()[slot as int],
                    )
                },
            },
    {
        let ghost before = self.futures();
        assert(before[slot as int].pollable());
        let mut taken: Option<Slot<Fut>> = None;
        std::mem::swap(&mut self.slots[slot], &mut taken);
        let mut entry = taken.unwrap();
        assert(self.futures() =~= before.remove(slot as int));
        entry.task.start_poll();
        match entry.future.poll(&entry.waker) {
            Poll::Ready(value) => {
                self.free.push(slot);
                self.len = self.len - 1;
                Some(value)
            },
            Poll::Pending => {
                self.slots.set(slot, Some(entry));
                proof {
                    let after = self.futures();
                    assert(after =~= before.insert(slot as int, after[slot as int]));
                }
                None
            },
        }
    }

    /// What is left to report when the ready queue has run dry.
    fn idle(&mut self) -> (r: Poll<Option<Fut::Output>>)
        requires
            old(self).inv(),
        ensures
            final(self).inv(),
            final(self).futures() =~= old(self).futures(),
            final(self).fresh() == old(self).fresh(),
            r is Pending || r == Poll::<Option<Fut::Output>>::Ready(None),
            hands_out(old(self).futures(), final(self).futures(), r),
            final(self).reported_empty() == (r is Ready),
    {
        if self.len == 0 {
            self.terminated = true;
            Poll::Ready(None)
        } else {
            Poll::Pending
        }
    }
}

impl<Fut: Future> Default for FuturesUnordered<Fut> {
    fn default() -> (registry: FuturesUnordered<Fut>)
        ensures
            registry.inv(),
            registry.futures() =~= Map::empty(),
            registry.fresh() =~= Seq::empty(),
            !registry.reported_empty(),
    {
        FuturesUnordered::new()
    }
}

impl<Fut: Future> FuturesUnordered<Fut> {
    /// The states in which the stream may be polled.
    pub open spec fn wf(&self) -> bool {
        self.inv()
    }

    /// Whether a poll that starts in `self` may end in `next` and return `r`.
    pub open spec fn yields(&self, next: &Self, r: Poll<Option<Fut::Output>>) -> bool {
        &&& next.reported_empty() == (r == Poll::<Option<Fut::Output>>::Ready(None))
        &&& registry_yields(self.futures(), next.futures(), r)
        &&& polls_fresh_first(self.futures(), self.fresh(), next.futures(), next.fresh(), r)
    }

    /// Gives the futures that were pushed since the last poll their first
    /// poll, in the order in which they were pushed, and then polls the
    /// futures that asked for it, oldest request first: until one future
    /// completes, nothing is left to poll, or `YIELD_EVERY` slots have been
    /// looked at. A registry that holds no future reports the end at once.
    pub fn poll_next(&mut self, waker: &Waker) -> (r: Poll<Option<Fut::Output>>)
        requires
            old(self).wf(),
        ensures
            final(self).wf(),
            old(self).yields(final(self), r),
            old(self).futures() =~= Map::empty() ==> r == Poll::<Option<Fut::Output>>::Ready(None),
    {
        let r = self.poll_registry(waker);
        proof {
            if old(self).futures() =~= Map::empty() {
                lemma_empty_registry_is_done(old(self).futures(), self.futures(), r);
            }
        }
        r
    }

    /// As a `Stream`, this polls as `wf` and `yields` say.
    pub proof fn lemma_stream(&self, next: &Self, r: Poll<Option<Fut::Output>>)
        ensures
            Stream::wf(self) == self.wf(),
            Stream::yields(self, next, r) == self.yields(next, r),
    {
    }
}

impl<Fut: Future> Stream for FuturesUnordered<Fut> {
    type Item = Fut::Output;

    open spec fn wf(&self) -> bool {
        FuturesUnordered::wf(self)
    }

    open spec fn yields(&self, next: &Self, r: Poll<Option<Fut::Output>>) -> bool {
        FuturesUnordered::yields(self, next, r)
    }

    fn poll_next(&mut self, waker: &Waker) -> (r: Poll<Option<Fut::Output>>) {
        FuturesUnordered::poll_next(self, waker)
    }
}

impl<Fut: Future> FuturesUnordered<Fut> {
    /// One poll of the registry.
    fn poll_registry(&mut self, waker: &Waker) -> (r: Poll<Option<Fut::Output>>)
        requires
            old(self).inv(),
        ensures
            final(self).inv(),
            final(self).reported_empty() == (r == Poll::<Option<Fut::Output>>::Ready(None)),
            registry_yields(old(self).futures(), final(self).futures(), r),
            polls_fresh_first(
                old(self).futures(),
                old(self).fresh(),
                final(self).futures(),
                final(self).fresh(),
                r,
            ),
    {
        let ghost start = self.futures();
        let ghost fresh = self.fresh();
        self.queue.register(waker);
        let mut rounds: usize = 0;
        while rounds < YIELD_EVERY && self.fresh.len() > 0
            invariant
                self.inv(),
                start == old(self).futures(),
                fresh == old(self).fresh(),
                fresh.no_duplicates(),
                rounds <= YIELD_EVERY,
                rounds <= fresh.len(),
                self.fresh() =~= fresh.skip(rounds as int),
                greeted(start, fresh, self.futures(), rounds as nat),
                advances(start, self.futures(), rounds as nat),
                !self.reported_empty() || self.futures() =~= Map::empty(),
            decreases YIELD_EVERY - rounds,
        {
            let ghost before = self.futures();
            let ghost left = self.fresh();
            let slot = self.fresh.pop_front().unwrap();
            proof {
                assert(left[0] == slot);
                assert(self.fresh() =~= left.skip(1));
            }
            match self.poll_slot(slot) {
                Some(out) => {
                    return Poll::Ready(Some(out));
                },
                None => {
                    proof {
                        let after = self.futures();
                        assert(advances_once(before, after));
                    }
                    rounds = rounds + 1;
                },
            }
        }
        if self.fresh.len() > 0 {
            waker.wake_by_ref();
            assert(hands_out(self.futures(), self.futures(), Poll::Pending));
            return Poll::Pending;
        }
        let ghost met = self.futures();
        let ghost first = rounds as nat;
        let ghost mut polls: nat = 0;
        while rounds < YIELD_EVERY
            invariant
                self.inv(),
                start == old(self).futures(),
                fresh == old(self).fresh(),
                self.fresh() =~= Seq::empty(),
                first <= fresh.len(),
                first + polls <= rounds <= YIELD_EVERY,
                greeted(start, fresh, met, first),
                fresh.len() <= first,
                advances(start, self.futures(), first + polls),
                advances(met, self.futures(), polls),
                !self.reported_empty() || self.futures() =~= Map::empty(),
            decreases YIELD_EVERY - rounds,
        {
            rounds = rounds + 1;
            let slot = match self.queue.dequeue() {
                Some(slot) => slot,
                None => {
                    return self.idle();
                },
            };
            if slot < self.slots.len() && self.slots[slot].is_some() {
                let ghost before = self.futures();
                match self.poll_slot(slot) {
                    Some(out) => {
                        return Poll::Ready(Some(out));
                    },
                    None => {
                        proof {
                            assert(advances_once(before, self.futures()));
                            polls = polls + 1;
                        }
                    },
                }
            }
        }
        let r = if self.len == 0 {
            self.idle()
        } else {
            waker.wake_by_ref();
            Poll::Pending
        };
        r
    }

    /// Whether the stream has ended.
    pub open spec fn terminated(&self) -> bool {
        self.reported_empty()
    }

    /// Returns `true` if the stream should no longer be polled.
    pub fn is_terminated(&self) -> (b: bool)
        ensures
            b == self.terminated(),
    {
        self.terminated
    }
}

impl<Fut: Future> FusedStream for FuturesUnordered<Fut> {
    open spec fn terminated(&self) -> bool {
        FuturesUnordered::terminated(self)
    }

    fn is_terminated(&self) -> (b: bool) {
        FuturesUnordered::is_terminated(self)
    }

    proof fn lemma_fused(&self, next: &Self, r: Poll<Option<Fut::Output>>) {
        if self.terminated() {
            let (mid, polls) = choose|mid: Map<int, Fut>, polls: nat|
                {
                    &&& polls <= YIELD_EVERY
                    &&& #[trigger] advances(self.futures(), mid, polls)
                    &&& hands_out(mid, next.futures(), r)
                };
            lemma_advances_keeps_slots(self.futures(), mid, polls);
        }
    }
}

/// Converts a list of futures into a registry that holds them all: the
/// `i`-th future is in the slot `slots[i]`, and no other slot holds a future.
pub fn futures_unordered<Fut: Future>(futures: Vec<Fut>) -> (registry: FuturesUnordered<Fut>)
    requires
        forall|i: int| 0 <= i < futures@.len() ==> (#[trigger] futures@[i]).pollable(),
    ensures
        registry.inv(),
        !registry.reported_empty(),
        registry.futures().len() == futures@.len(),
        holds_list(registry.futures(), futures@, registry.fresh()),
{
    let mut rest = reversed(futures);
    let mut registry = FuturesUnordered::new();
    let ghost mut slots: Seq<int> = Seq::empty();
    while rest.len() > 0
        invariant
            registry.inv(),
            !registry.reported_empty(),
            rest@.len() + slots.len() == futures@.len(),
            forall|i: int|
                0 <= i < rest@.len() ==> #[trigger] rest@[i] == futures@[futures@.len() - 1 - i],
            forall|i: int| 0 <= i < futures@.len() ==> (#[trigger] futures@[i]).pollable(),
            registry.futures().len() == slots.len(),
            registry.fresh() == slots,
            holds_list(registry.futures(), futures@.take(slots.len() as int), slots),
        decreases rest@.len(),
    {
        let ghost before = registry.futures();
        let ghost done = slots.len() as int;
        let fut = rest.pop().unwrap();
        registry.push(fut);
        proof {
            let after = registry.futures();
            let slot = choose|slot: int|
                {
                    &&& !(#[trigger] before.contains_key(slot))
                    &&& after =~= before.insert(slot, fut)
                    &&& registry.fresh() =~= slots.push(slot)
                };
            let earlier = slots;
            slots = earlier.push(slot);
            assert forall|at: int| after.contains_key(at) <==> slots.contains(at) by {
                if before.contains_key(at) {
                    assert(earlier.contains(at));
                    let k = choose|k: int| 0 <= k < earlier.len() && earlier[k] == at;
                    assert(slots[k] == at);
                }
                if at == slot {
                    assert(slots[done] == at);
                }
            }
        }
    }
    registry
}

/// The items of `list`, last first.
pub(crate) fn reversed<T>(list: Vec<T>) -> (back: Vec<T>)
    ensures
        back@.len() == list@.len(),
        forall|i: int| 0 <= i < list@.len() ==> #[trigger] back@[i] == list@[list@.len() - 1 - i],
{
    let mut rest = list;
    let mut back: Vec<T> = Vec::new();
    while rest.len() > 0
        invariant
            rest@.len() + back@.len() == list@.len(),
            forall|i: int| 0 <= i < rest@.len() ==> rest@[i] == list@[i],
            forall|i: int|
                0 <= i < back@.len() ==> #[trigger] back@[i] == list@[list@.len() - 1 - i],
        decreases rest@.len(),
    {
        let item = rest.pop().unwrap();
        back.push(item);
    }
    back
}

} // verus!
