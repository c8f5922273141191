//! What a queue of futures that keeps their order does, as relations on
//! what it holds, and what follows from them.

use vstd::prelude::*;
use std::task::Waker;
use crate::future::Future;
use crate::future::resolves_only_to;
use crate::stream::registry::advances;
use crate::stream::registry::advances_once;
use crate::stream::registry::hands_out;
use crate::stream::registry::lemma_hands_out_each_once;
use crate::stream::registry::outputs_of;
use crate::stream::registry::polls_fresh_first;
use crate::stream::registry::registry_yields;
use crate::task::Poll;

verus! {

/// A future, or the output of one, with the sequence number it was given when
/// the future was added.
#[derive(Debug)]
pub struct OrderWrapper<T> {
    pub data: T,
    pub index: usize,
}

impl<T: Future> OrderWrapper<T> {
    /// The states in which the future may be polled.
    pub open spec fn pollable(&self) -> bool {
        self.data.pollable()
    }

    /// Whether a poll that starts in `self` may end in `next` and return `r`.
    pub open spec fn polls_to(&self, next: &Self, r: Poll<OrderWrapper<T::Output>>) -> bool {
        &&& next.index == self.index
        &&& match r {
            Poll::Pending => self.data.polls_to(&next.data, Poll::Pending),
            Poll::Ready(out) => out.index == self.index && self.data.polls_to(
                &next.data,
                Poll::Ready(out.data),
            ),
        }
    }

    /// Polls the inner future and stamps its output with the sequence number.
    pub fn poll(&mut self, waker: &Waker) -> (r: Poll<OrderWrapper<T::Output>>)
        requires
            old(self).pollable(),
        ensures
            old(self).polls_to(final(self), r),
            r is Pending ==> final(self).pollable(),
    {
        match self.data.poll(waker) {
            Poll::Pending => Poll::Pending,
            Poll::Ready(output) => Poll::Ready(OrderWrapper { data: output, index: self.index }),
        }
    }

    /// As a `Future`, this polls as `pollable` and `polls_to` say.
    pub proof fn lemma_future(&self, next: &Self, r: Poll<OrderWrapper<T::Output>>)
        ensures
            Future::pollable(self) == self.pollable(),
            Future::polls_to(self, next, r) == self.polls_to(next, r),
    {
    }
}

impl<T: Future> Future for OrderWrapper<T> {
    type Output = OrderWrapper<T::Output>;

    open spec fn pollable(&self) -> bool {
        OrderWrapper::pollable(self)
    }

    open spec fn polls_to(&self, next: &Self, r: Poll<OrderWrapper<T::Output>>) -> bool {
        OrderWrapper::polls_to(self, next, r)
    }

    fn poll(&mut self, waker: &Waker) -> (r: Poll<OrderWrapper<T::Output>>) {
        OrderWrapper::poll(self, waker)
    }
}

/// What an ordered registry holds.
pub struct OrderedState<Fut: Future> {
    /// The futures in flight with their sequence numbers, each under the
    /// position of its slot in the inner registry.
    pub running: Map<int, OrderWrapper<Fut>>,
    /// The outputs of futures that completed before their turn, under their
    /// sequence numbers.
    pub staged: Map<usize, Fut::Output>,
    /// The sequence number of the output that is due next.
    pub next_out: usize,
    /// The sequence number that the next future will get.
    pub next_in: usize,
    /// The slots of the futures that have not been polled yet, in the order in
    /// which the futures were pushed.
    pub fresh: Seq<int>,
}

/// Whether a future in flight has the sequence number `index`.
pub open spec fn is_running<Fut: Future>(running: Map<int, OrderWrapper<Fut>>, index: usize) -> bool {
    exists|slot: int| #[trigger] running.contains_key(slot) && running[slot].index == index
}

impl<Fut: Future> OrderedState<Fut> {
    /// The bookkeeping of sequence numbers is intact: every number from
    /// `next_out` up to `next_in` belongs to one future in flight or to one
    /// staged output, and to nothing else.
    pub open spec fn ordered(self) -> bool {
        &&& self.next_out <= self.next_in
        &&& self.running.dom().finite()
        &&& self.staged.dom().finite()
        &&& self.running.dom().len() + self.staged.dom().len() == self.next_in - self.next_out
        &&& forall|slot: int| #[trigger]
            self.running.contains_key(slot) ==> self.next_out <= self.running[slot].index
                < self.next_in
        &&& forall|slot1: int, slot2: int|
            #![trigger self.running[slot1], self.running[slot2]]
            self.running.contains_key(slot1) && self.running.contains_key(slot2)
                && self.running[slot1].index == self.running[slot2].index ==> slot1 == slot2
        &&& forall|index: usize| #[trigger]
            self.staged.contains_key(index) ==> self.next_out <= index < self.next_in
                && !is_running(self.running, index)
        &&& forall|index: usize|
            self.next_out <= index < self.next_in ==> self.staged.contains_key(index)
                || #[trigger] is_running(self.running, index)
    }

    /// What one poll of the inner registry does: the futures that have not
    /// been polled yet come first, then those that were woken.
    pub open spec fn inner_yields(
        self,
        next: Self,
        r: Poll<Option<OrderWrapper<Fut::Output>>>,
    ) -> bool {
        &&& registry_yields(self.running, next.running, r)
        &&& polls_fresh_first(self.running, self.fresh, next.running, next.fresh, r)
    }

    /// One round in which the inner registry hands out an output that is not
    /// due yet: the output is staged under its sequence number.
    pub open spec fn stages(self, next: Self) -> bool {
        exists|out: OrderWrapper<Fut::Output>|
            {
                &&& #[trigger] self.inner_yields(next, Poll::Ready(Some(out)))
                &&& out.index != self.next_out
                &&& next.staged == self.staged.insert(out.index, out.data)
                &&& next.next_out == self.next_out
                &&& next.next_in == self.next_in
            }
    }

    /// `rounds` rounds in a row that each stage one output.
    pub open spec fn stages_many(self, next: Self, rounds: nat) -> bool
        decreases rounds,
    {
        if rounds == 0 {
            next == self
        } else {
            exists|mid: Self| self.stages_many(mid, (rounds - 1) as nat) && #[trigger] mid.stages(next)
        }
    }

    /// The last round of a poll: the inner registry hands out the output that
    /// is due, or reports that it is empty, or that its futures are pending.
    pub open spec fn finishes(self, next: Self, r: Poll<Option<Fut::Output>>) -> bool {
        &&& next.staged == self.staged
        &&& next.next_in == self.next_in
        &&& match r {
            Poll::Ready(Some(out)) => next.next_out == self.next_out + 1 && self.inner_yields(
                next,
                Poll::Ready(Some(OrderWrapper { data: out, index: self.next_out })),
            ),
            Poll::Ready(None) => next.next_out == self.next_out && self.inner_yields(
                next,
                Poll::Ready(None),
            ),
            Poll::Pending => next.next_out == self.next_out && self.inner_yields(
                next,
                Poll::Pending,
            ),
        }
    }

    /// What one poll of the ordered registry may do. An output that is staged
    /// and due is handed out without a poll of any future. Otherwise the
    /// inner registry is polled until it hands out the output that is due,
    /// and what it hands out before that is staged.
    pub open spec fn yields(self, next: Self, r: Poll<Option<Fut::Output>>) -> bool {
        if self.staged.contains_key(self.next_out) {
            &&& r == Poll::Ready(Some(self.staged[self.next_out]))
            &&& next.staged == self.staged.remove(self.next_out)
            &&& next.running == self.running
            &&& next.fresh == self.fresh
            &&& next.next_out == self.next_out + 1
            &&& next.next_in == self.next_in
        } else {
            exists|mid: Self, rounds: nat| #[trigger]
                self.stages_many(mid, rounds) && mid.finishes(next, r)
        }
    }
}

/// Polls that return `Pending` leave every future in its slot and with its
/// sequence number.
pub proof fn lemma_advances_keeps_order<Fut: Future>(
    from: Map<int, OrderWrapper<Fut>>,
    to: Map<int, OrderWrapper<Fut>>,
    polls: nat,
)
    requires
        advances(from, to, polls),
    ensures
        to.dom() =~= from.dom(),
        forall|slot: int| #[trigger] from.contains_key(slot) ==> to[slot].index == from[slot].index,
    decreases polls,
{
    if polls > 0 {
        let mid = choose|mid: Map<int, OrderWrapper<Fut>>|
            advances(from, mid, (polls - 1) as nat) && #[trigger] advances_once(mid, to);
        lemma_advances_keeps_order(from, mid, (polls - 1) as nat);
    }
}

/// What one poll of the inner registry does to the slots and the sequence
/// numbers: an output that is handed out carries the number of the future that
/// left, and every other future keeps its slot and its number.
pub proof fn lemma_registry_keeps_order<Fut: Future>(
    from: Map<int, OrderWrapper<Fut>>,
    to: Map<int, OrderWrapper<Fut>>,
    r: Poll<Option<OrderWrapper<Fut::Output>>>,
)
    requires
        registry_yields(from, to, r),
    ensures
        forall|slot: int| #[trigger]
            to.contains_key(slot) ==> from.contains_key(slot) && to[slot].index
                == from[slot].index,
        match r {
            Poll::Ready(Some(out)) => exists|slot: int|
                {
                    &&& #[trigger] from.contains_key(slot)
                    &&& from[slot].index == out.index
                    &&& to.dom() =~= from.dom().remove(slot)
                },
            Poll::Ready(None) => from.dom() =~= Set::empty() && to.dom() =~= Set::empty(),
            Poll::Pending => to.dom() =~= from.dom() && !(from.dom() =~= Set::empty()),
        },
{
    let (mid, polls) = choose|mid: Map<int, OrderWrapper<Fut>>, polls: nat|
        {
            &&& polls <= crate::task::YIELD_EVERY
            &&& #[trigger] advances(from, mid, polls)
            &&& hands_out(mid, to, r)
        };
    lemma_advances_keeps_order(from, mid, polls);
}

impl<Fut: Future> OrderedState<Fut> {
    /// Staging an output that is not due keeps the bookkeeping intact, and
    /// leaves one future less in flight.
    pub proof fn lemma_stage_keeps_ordered(self, next: Self)
        requires
            self.ordered(),
            !self.staged.contains_key(self.next_out),
            self.stages(next),
        ensures
            next.ordered(),
            !next.staged.contains_key(next.next_out),
            next.running.dom().len() < self.running.dom().len(),
    {
        let out = choose|out: OrderWrapper<Fut::Output>|
            {
                &&& #[trigger] self.inner_yields(next, Poll::Ready(Some(out)))
                &&& out.index != self.next_out
                &&& next.staged == self.staged.insert(out.index, out.data)
                &&& next.next_out == self.next_out
                &&& next.next_in == self.next_in
            };
        lemma_registry_keeps_order(self.running, next.running, Poll::Ready(Some(out)));
        let left = choose|slot: int|
            {
                &&& #[trigger] self.running.contains_key(slot)
                &&& self.running[slot].index == out.index
                &&& next.running.dom() =~= self.running.dom().remove(slot)
            };
        self.lemma_fewer_running(next, left);
    }

    /// Where one future has left and every other has kept its slot and its
    /// number, the futures that are left are those that were running, less the
    /// one that left.
    proof fn lemma_fewer_running(self, next: Self, left: int)
        requires
            self.ordered(),
            self.running.contains_key(left),
            next.running.dom() =~= self.running.dom().remove(left),
            forall|slot: int| #[trigger]
                next.running.contains_key(slot) ==> next.running[slot].index
                    == self.running[slot].index,
        ensures
            next.running.dom().finite(),
            next.running.dom().len() == self.running.dom().len() - 1,
            !is_running(next.running, self.running[left].index),
            forall|index: usize|
                index != self.running[left].index ==> (#[trigger] is_running(next.running, index)
                    <==> is_running(self.running, index)),
            forall|slot1: int, slot2: int|
                #![trigger next.running[slot1], next.running[slot2]]
                next.running.contains_key(slot1) && next.running.contains_key(slot2)
                    && next.running[slot1].index == next.running[slot2].index ==> slot1 == slot2,
            forall|slot: int| #[trigger]
                next.running.contains_key(slot) ==> next.running[slot].index
                    != self.running[left].index && self.next_out <= next.running[slot].index
                    < self.next_in,
    {
    }

    /// Where no future is in flight, no round stages anything.
    pub proof fn lemma_nothing_to_stage(self, mid: Self, rounds: nat)
        requires
            self.running =~= Map::empty(),
            self.stages_many(mid, rounds),
        ensures
            rounds == 0,
            mid == self,
        decreases rounds,
    {
        if rounds > 0 {
            let before = choose|before: Self|
                self.stages_many(before, (rounds - 1) as nat) && #[trigger] before.stages(mid);
            self.lemma_nothing_to_stage(before, (rounds - 1) as nat);
            let out = choose|out: OrderWrapper<Fut::Output>|
                {
                    &&& #[trigger] before.inner_yields(mid, Poll::Ready(Some(out)))
                    &&& out.index != before.next_out
                    &&& mid.staged == before.staged.insert(out.index, out.data)
                    &&& mid.next_out == before.next_out
                    &&& mid.next_in == before.next_in
                };
            lemma_registry_keeps_order(before.running, mid.running, Poll::Ready(Some(out)));
        }
    }

    /// The last round of a poll keeps the bookkeeping intact; and where the
    /// inner registry reports that it is empty, nothing is staged either.
    pub proof fn lemma_finish_keeps_ordered(self, next: Self, r: Poll<Option<Fut::Output>>)
        requires
            self.ordered(),
            !self.staged.contains_key(self.next_out),
            self.finishes(next, r),
        ensures
            next.ordered(),
            r == Poll::<Option<Fut::Output>>::Ready(None) ==> next.staged =~= Map::empty()
                && next.running =~= Map::empty() && next.next_out == next.next_in,
    {
        match r {
            Poll::Ready(Some(out)) => {
                let wrapped = OrderWrapper { data: out, index: self.next_out };
                lemma_registry_keeps_order(self.running, next.running, Poll::Ready(Some(wrapped)));
                let left = choose|slot: int|
                    {
                        &&& #[trigger] self.running.contains_key(slot)
                        &&& self.running[slot].index == wrapped.index
                        &&& next.running.dom() =~= self.running.dom().remove(slot)
                    };
                self.lemma_fewer_running(next, left);
            },
            Poll::Ready(None) => {
                if self.next_out < self.next_in {
                    assert(is_running(self.running, self.next_out));
                }
            },
            Poll::Pending => {
                lemma_registry_keeps_order(self.running, next.running, Poll::Pending);
                assert forall|index: usize| #[trigger] is_running(next.running, index)
                    == is_running(self.running, index) by {}
            },
        }
    }
}

/// `holds`, for futures that carry a sequence number: the output carries the
/// same number.
pub open spec fn holds_in_order<Fut: Future>(holds: spec_fn(Fut, Fut::Output) -> bool) -> spec_fn(
    OrderWrapper<Fut>,
    OrderWrapper<Fut::Output>,
) -> bool {
    |wrapped: OrderWrapper<Fut>, out: OrderWrapper<Fut::Output>|
        out.index == wrapped.index && holds(wrapped.data, out.data)
}

/// What each future in flight can complete with, where the future with the
/// sequence number `index` is to complete with `expected(index)`.
pub open spec fn targets_in_order<Fut: Future>(
    running: Map<int, OrderWrapper<Fut>>,
    expected: spec_fn(usize) -> Fut::Output,
) -> Map<int, OrderWrapper<Fut::Output>> {
    Map::new(
        |slot: int| running.contains_key(slot),
        |slot: int|
            OrderWrapper { data: expected(running[slot].index), index: running[slot].index },
    )
}

impl<Fut: Future> OrderedState<Fut> {
    /// Whether every future in flight can complete only with the output that
    /// `expected` has for its sequence number, and every staged output is the
    /// one that `expected` has for its number.
    pub open spec fn in_order(
        self,
        holds: spec_fn(Fut, Fut::Output) -> bool,
        expected: spec_fn(usize) -> Fut::Output,
    ) -> bool {
        &&& forall|slot: int| #[trigger]
            self.running.contains_key(slot) ==> holds(
                self.running[slot].data,
                expected(self.running[slot].index),
            )
        &&& forall|index: usize| #[trigger]
            self.staged.contains_key(index) ==> self.staged[index] == expected(index)
    }

    /// One poll of the inner registry hands out only what `expected` has for
    /// the number of the future that completed, and keeps what the other
    /// futures can complete with.
    proof fn lemma_registry_in_order(
        self,
        to: Map<int, OrderWrapper<Fut>>,
        r: Poll<Option<OrderWrapper<Fut::Output>>>,
        holds: spec_fn(Fut, Fut::Output) -> bool,
        expected: spec_fn(usize) -> Fut::Output,
    )
        requires
            resolves_only_to(holds),
            self.in_order(holds, expected),
            registry_yields(self.running, to, r),
        ensures
            forall|slot: int| #[trigger]
                to.contains_key(slot) ==> holds(to[slot].data, expected(to[slot].index)),
            r matches Poll::Ready(Some(out)) ==> out.data == expected(out.index),
    {
        let holds_w = holds_in_order(holds);
        let targets = targets_in_order(self.running, expected);
        lemma_hands_out_each_once(self.running, to, r, holds_w, targets);
    }

    /// Rounds that stage outputs keep the bookkeeping intact and stage only
    /// what `expected` has for the number under which it is staged.
    proof fn lemma_stages_in_order(
        self,
        mid: Self,
        rounds: nat,
        holds: spec_fn(Fut, Fut::Output) -> bool,
        expected: spec_fn(usize) -> Fut::Output,
    )
        requires
            resolves_only_to(holds),
            self.ordered(),
            self.in_order(holds, expected),
            !self.staged.contains_key(self.next_out),
            self.stages_many(mid, rounds),
        ensures
            mid.ordered(),
            mid.in_order(holds, expected),
            !mid.staged.contains_key(mid.next_out),
            mid.next_out == self.next_out,
            mid.next_in == self.next_in,
        decreases rounds,
    {
        if rounds > 0 {
            let before = choose|before: Self|
                self.stages_many(before, (rounds - 1) as nat) && #[trigger] before.stages(mid);
            self.lemma_stages_in_order(before, (rounds - 1) as nat, holds, expected);
            let out = choose|out: OrderWrapper<Fut::Output>|
                {
                    &&& #[trigger] before.inner_yields(mid, Poll::Ready(Some(out)))
                    &&& out.index != before.next_out
                    &&& mid.staged == before.staged.insert(out.index, out.data)
                    &&& mid.next_out == before.next_out
                    &&& mid.next_in == before.next_in
                };
            before.lemma_stage_keeps_ordered(mid);
            before.lemma_registry_in_order(mid.running, Poll::Ready(Some(out)), holds, expected);
        }
    }

    /// Outputs come out in the order in which the futures went in. Where the
    /// future with the sequence number `index` can complete only with
    /// `expected(index)`, a poll that hands out an output hands out the one
    /// for `next_out` and moves `next_out` on by one; any other poll leaves
    /// `next_out` where it is; and the end is reported only when every
    /// number that was given out has had its output handed out.
    pub proof fn lemma_yields_in_push_order(
        self,
        next: Self,
        r: Poll<Option<Fut::Output>>,
        holds: spec_fn(Fut, Fut::Output) -> bool,
        expected: spec_fn(usize) -> Fut::Output,
    )
        requires
            resolves_only_to(holds),
            self.ordered(),
            self.in_order(holds, expected),
            self.yields(next, r),
        ensures
            next.ordered(),
            next.in_order(holds, expected),
            next.next_in == self.next_in,
            match r {
                Poll::Ready(Some(out)) => out == expected(self.next_out) && next.next_out
                    == self.next_out + 1,
                Poll::Ready(None) => next.next_out == self.next_out && self.next_out
                    == self.next_in,
                Poll::Pending => next.next_out == self.next_out,
            },
    {
        if !self.staged.contains_key(self.next_out) {
            let (mid, rounds) = choose|mid: Self, rounds: nat| #[trigger]
                self.stages_many(mid, rounds) && mid.finishes(next, r);
            self.lemma_stages_in_order(mid, rounds, holds, expected);
            mid.lemma_finish_keeps_ordered(next, r);
            match r {
                Poll::Ready(Some(out)) => {
                    let wrapped = OrderWrapper { data: out, index: mid.next_out };
                    mid.lemma_registry_in_order(
                        next.running,
                        Poll::Ready(Some(wrapped)),
                        holds,
                        expected,
                    );
                },
                Poll::Ready(None) => {},
                Poll::Pending => {
                    mid.lemma_registry_in_order(next.running, Poll::Pending, holds, expected);
                },
            }
        }
    }
}

/// Whether `states` and `results` are a run of polls of an ordered registry:
/// the poll that starts in `states[i]` returns `results[i]` and ends in
/// `states[i + 1]`.
pub open spec fn ordered_run<Fut: Future>(
    states: Seq<OrderedState<Fut>>,
    results: Seq<Poll<Option<Fut::Output>>>,
) -> bool {
    &&& states.len() == results.len() + 1
    &&& forall|i: int| 0 <= i < results.len() ==> states[i].yields(states[i + 1], #[trigger] results[i])
}

/// Over any run of polls, the outputs that are handed out are those of the
/// futures in the order in which the futures were pushed: the `j`-th output
/// of the run is the output of the future that is `j` places after the one
/// that was due when the run began. Once a poll has reported the end, the
/// output of every future that was pushed has been handed out.
pub proof fn lemma_run_in_push_order<Fut: Future>(
    states: Seq<OrderedState<Fut>>,
    results: Seq<Poll<Option<Fut::Output>>>,
    holds: spec_fn(Fut, Fut::Output) -> bool,
    expected: spec_fn(usize) -> Fut::Output,
)
    requires
        resolves_only_to(holds),
        ordered_run(states, results),
        states[0].ordered(),
        states[0].in_order(holds, expected),
    ensures
        states.last().ordered(),
        states.last().in_order(holds, expected),
        states.last().next_in == states[0].next_in,
        states.last().next_out == states[0].next_out + outputs_of(results).len(),
        forall|j: int|
            0 <= j < outputs_of(results).len() ==> #[trigger] outputs_of(results)[j] == expected(
                (states[0].next_out + j) as usize,
            ),
        results.len() > 0 && results.last() == Poll::<Option<Fut::Output>>::Ready(None)
            ==> states[0].next_out + outputs_of(results).len() == states[0].next_in,
    decreases results.len(),
{
    if results.len() > 0 {
        let n = results.len() as int;
        let earlier_states = states.drop_last();
        let earlier_results = results.drop_last();
        lemma_run_in_push_order(earlier_states, earlier_results, holds, expected);
        let from = states[n - 1];
        let to = states[n];
        let r = results[n - 1];
        from.lemma_yields_in_push_order(to, r, holds, expected);
    }
}

/// The futures of `list`, each with its place in the list as its sequence
/// number.
pub open spec fn numbered<Fut>(list: Seq<Fut>) -> Seq<OrderWrapper<Fut>> {
    Seq::new(list.len(), |i: int| OrderWrapper { data: list[i], index: i as usize })
}

} // verus!
