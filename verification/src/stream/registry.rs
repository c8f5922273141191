//! What a registry of futures does, as relations on the futures that it
//! holds, and what follows from them.

use vstd::prelude::*;
use crate::future::completes_with;
use crate::future::Future;
use crate::future::resolves_only_to;
use crate::task::Poll;
use crate::task::YIELD_EVERY;

verus! {

/// Whether `to` is `from` after one poll of one of its futures that returned
/// `Pending`.
pub open spec fn advances_once<Fut: Future>(from: Map<int, Fut>, to: Map<int, Fut>) -> bool {
    exists|slot: int|
        {
            &&& from.contains_key(slot)
            &&& to.contains_key(slot)
            &&& #[trigger] from[slot].polls_to(&to[slot], Poll::Pending)
            &&& to =~= from.insert(slot, to[slot])
        }
}

/// Whether `to` is `from` after `polls` polls of its futures that all returned
/// `Pending`.
pub open spec fn advances<Fut: Future>(from: Map<int, Fut>, to: Map<int, Fut>, polls: nat) -> bool
    decreases polls,
{
    if polls == 0 {
        to =~= from
    } else {
        exists|mid: Map<int, Fut>|
            advances(from, mid, (polls - 1) as nat) && #[trigger] advances_once(mid, to)
    }
}

/// Whether `to` is `from` with `fut` in a slot that was free.
pub open spec fn joins<Fut: Future>(from: Map<int, Fut>, fut: Fut, to: Map<int, Fut>) -> bool {
    exists|slot: int| !from.contains_key(slot) && to =~= #[trigger] from.insert(slot, fut)
}

/// What ends a poll of the registry that holds `from`: a future completes,
/// its output is handed out and its slot released; or no future is left; or
/// the futures that are left stay for a later poll.
pub open spec fn hands_out<Fut: Future>(
    from: Map<int, Fut>,
    to: Map<int, Fut>,
    r: Poll<Option<Fut::Output>>,
) -> bool {
    match r {
        Poll::Ready(Some(out)) => exists|slot: int|
            {
                &&& from.contains_key(slot)
                &&& #[trigger] completes_with(from[slot], out)
                &&& to =~= from.remove(slot)
            },
        Poll::Ready(None) => from =~= Map::empty() && to =~= from,
        Poll::Pending => !(from =~= Map::empty()) && to =~= from,
    }
}

/// What one poll of a registry may do to its futures: up to `YIELD_EVERY` polls
/// of single futures that return `Pending`, and then the end of the poll.
pub open spec fn registry_yields<Fut: Future>(
    from: Map<int, Fut>,
    to: Map<int, Fut>,
    r: Poll<Option<Fut::Output>>,
) -> bool {
    exists|mid: Map<int, Fut>, polls: nat|
        {
            &&& polls <= YIELD_EVERY
            &&& #[trigger] advances(from, mid, polls)
            &&& hands_out(mid, to, r)
        }
}

/// Whether `slot` is among the first `polled` slots of `fresh`.
pub open spec fn among(fresh: Seq<int>, polled: nat, slot: int) -> bool {
    exists|i: int| 0 <= i < polled && i < fresh.len() && #[trigger] fresh[i] == slot
}

/// Whether `to` is `from` after the first poll of each of the first `polled`
/// futures of `fresh`, all of which returned `Pending`.
pub open spec fn greeted<Fut: Future>(
    from: Map<int, Fut>,
    fresh: Seq<int>,
    to: Map<int, Fut>,
    polled: nat,
) -> bool {
    &&& polled <= fresh.len()
    &&& to.dom() =~= from.dom()
    &&& forall|i: int|
        0 <= i < polled ==> from[fresh[i]].polls_to(&to[#[trigger] fresh[i]], Poll::Pending)
    &&& forall|slot: int|
        from.contains_key(slot) && !among(fresh, polled, slot) ==> #[trigger] to[slot]
            == from[slot]
}

/// What a poll does once every fresh future has had its first poll: up to
/// `budget` polls of futures that were woken, and then the end of the poll.
pub open spec fn woken_yields<Fut: Future>(
    from: Map<int, Fut>,
    to: Map<int, Fut>,
    r: Poll<Option<Fut::Output>>,
    budget: nat,
) -> bool {
    exists|mid: Map<int, Fut>, polls: nat|
        {
            &&& polls <= budget
            &&& #[trigger] advances(from, mid, polls)
            &&& hands_out(mid, to, r)
        }
}

/// What one poll of a registry does, first of all: the futures that were
/// pushed since the last poll are polled in the order in which they were
/// pushed. The first of them that completes ends the poll with its output.
/// Where `YIELD_EVERY` of them are pending, the poll yields and the rest stay
/// fresh. Otherwise none is fresh any more, and the poll goes on with the
/// futures that were woken.
pub open spec fn polls_fresh_first<Fut: Future>(
    from: Map<int, Fut>,
    fresh: Seq<int>,
    to: Map<int, Fut>,
    left: Seq<int>,
    r: Poll<Option<Fut::Output>>,
) -> bool {
    exists|mid: Map<int, Fut>, polled: nat|
        {
            &&& polled <= YIELD_EVERY
            &&& #[trigger] greeted(from, fresh, mid, polled)
            &&& if polled < fresh.len() {
                if polled < YIELD_EVERY {
                    &&& r matches Poll::Ready(Some(out))
                    &&& completes_with(mid[fresh[polled as int]], out)
                    &&& to =~= mid.remove(fresh[polled as int])
                    &&& left =~= fresh.skip(polled as int + 1)
                } else {
                    &&& r is Pending
                    &&& to =~= mid
                    &&& left =~= fresh.skip(polled as int)
                }
            } else {
                &&& left =~= Seq::empty()
                &&& woken_yields(mid, to, r, (YIELD_EVERY - polled) as nat)
            }
        }
}

/// A poll of a registry that holds no future reports the end at once.
pub proof fn lemma_empty_registry_is_done<Fut: Future>(
    from: Map<int, Fut>,
    to: Map<int, Fut>,
    r: Poll<Option<Fut::Output>>,
)
    requires
        from =~= Map::empty(),
        registry_yields(from, to, r),
    ensures
        r == Poll::<Option<Fut::Output>>::Ready(None),
        to =~= Map::empty(),
{
    let (mid, polls) = choose|mid: Map<int, Fut>, polls: nat|
        {
            &&& polls <= YIELD_EVERY
            &&& #[trigger] advances(from, mid, polls)
            &&& hands_out(mid, to, r)
        };
    lemma_advances_keeps_slots(from, mid, polls);
}

/// A future that was pushed gets its first poll at the next poll of the
/// registry. Where the future that was pushed first is ready whenever it is
/// polled, that poll of the registry hands its output out.
pub proof fn lemma_first_fresh_is_polled<Fut: Future>(
    from: Map<int, Fut>,
    fresh: Seq<int>,
    to: Map<int, Fut>,
    left: Seq<int>,
    r: Poll<Option<Fut::Output>>,
)
    requires
        fresh.len() > 0,
        polls_fresh_first(from, fresh, to, left, r),
    ensures
        (exists|next: Fut| #[trigger] from[fresh[0]].polls_to(&next, Poll::Pending)) || {
            &&& r matches Poll::Ready(Some(out))
            &&& completes_with(from[fresh[0]], out)
            &&& to =~= from.remove(fresh[0])
            &&& left =~= fresh.skip(1)
        },
{
    let (mid, polled) = choose|mid: Map<int, Fut>, polled: nat|
        {
            &&& polled <= YIELD_EVERY
            &&& #[trigger] greeted(from, fresh, mid, polled)
            &&& if polled < fresh.len() {
                if polled < YIELD_EVERY {
                    &&& r matches Poll::Ready(Some(out))
                    &&& completes_with(mid[fresh[polled as int]], out)
                    &&& to =~= mid.remove(fresh[polled as int])
                    &&& left =~= fresh.skip(polled as int + 1)
                } else {
                    &&& r is Pending
                    &&& to =~= mid
                    &&& left =~= fresh.skip(polled as int)
                }
            } else {
                &&& left =~= Seq::empty()
                &&& woken_yields(mid, to, r, (YIELD_EVERY - polled) as nat)
            }
        };
    if polled > 0 {
        assert(from[fresh[0]].polls_to(&mid[fresh[0]], Poll::Pending));
    } else {
        assert(mid =~= from);
    }
}

/// Polls that return `Pending` neither add a future nor release one.
pub proof fn lemma_advances_keeps_slots<Fut: Future>(
    from: Map<int, Fut>,
    to: Map<int, Fut>,
    polls: nat,
)
    requires
        advances(from, to, polls),
    ensures
        to.dom() =~= from.dom(),
    decreases polls,
{
    if polls > 0 {
        let mid = choose|mid: Map<int, Fut>|
            advances(from, mid, (polls - 1) as nat) && #[trigger] advances_once(mid, to);
        lemma_advances_keeps_slots(from, mid, (polls - 1) as nat);
    }
}

/// Whether every future of `futures` can complete only with the output that
/// `targets` has for its slot.
pub open spec fn aims_at<Fut: Future>(
    futures: Map<int, Fut>,
    holds: spec_fn(Fut, Fut::Output) -> bool,
    targets: Map<int, Fut::Output>,
) -> bool {
    forall|slot: int| #[trigger]
        futures.contains_key(slot) ==> targets.contains_key(slot) && holds(
            futures[slot],
            targets[slot],
        )
}

/// Polls that return `Pending` do not change what the futures can complete
/// with.
pub proof fn lemma_advances_keeps_aim<Fut: Future>(
    from: Map<int, Fut>,
    to: Map<int, Fut>,
    polls: nat,
    holds: spec_fn(Fut, Fut::Output) -> bool,
    targets: Map<int, Fut::Output>,
)
    requires
        resolves_only_to(holds),
        aims_at(from, holds, targets),
        advances(from, to, polls),
    ensures
        aims_at(to, holds, targets),
        to.dom() =~= from.dom(),
    decreases polls,
{
    if polls > 0 {
        let mid = choose|mid: Map<int, Fut>|
            advances(from, mid, (polls - 1) as nat) && #[trigger] advances_once(mid, to);
        lemma_advances_keeps_aim(from, mid, (polls - 1) as nat, holds, targets);
    }
}

/// Each future's output is handed out once. Where every future in flight can
/// complete only with the output that `targets` has for its slot, a poll of
/// the registry hands out the target of one slot that was in flight and
/// releases that slot, or leaves every slot in flight. It reports the end only
/// when no slot is in flight.
pub proof fn lemma_hands_out_each_once<Fut: Future>(
    from: Map<int, Fut>,
    to: Map<int, Fut>,
    r: Poll<Option<Fut::Output>>,
    holds: spec_fn(Fut, Fut::Output) -> bool,
    targets: Map<int, Fut::Output>,
)
    requires
        resolves_only_to(holds),
        aims_at(from, holds, targets),
        registry_yields(from, to, r),
    ensures
        aims_at(to, holds, targets),
        match r {
            Poll::Ready(Some(out)) => exists|slot: int|
                {
                    &&& #[trigger] from.contains_key(slot)
                    &&& out == targets[slot]
                    &&& to.dom() =~= from.dom().remove(slot)
                },
            Poll::Ready(None) => from.dom() =~= Set::empty() && to.dom() =~= Set::empty(),
            Poll::Pending => to.dom() =~= from.dom() && !(from.dom() =~= Set::empty()),
        },
{
    let (mid, polls) = choose|mid: Map<int, Fut>, polls: nat|
        {
            &&& polls <= YIELD_EVERY
            &&& #[trigger] advances(from, mid, polls)
            &&& hands_out(mid, to, r)
        };
    lemma_advances_keeps_aim(from, mid, polls, holds, targets);
}

/// Whether `states` and `results` are a run of polls of a registry: the poll
/// that starts in `states[i]` returns `results[i]` and ends in
/// `states[i + 1]`.
pub open spec fn registry_run<Fut: Future>(
    states: Seq<Map<int, Fut>>,
    results: Seq<Poll<Option<Fut::Output>>>,
) -> bool {
    &&& states.len() == results.len() + 1
    &&& forall|i: int|
        0 <= i < results.len() ==> registry_yields(states[i], states[i + 1], #[trigger] results[i])
}

/// The outputs among `results`, in the order in which they were handed out.
pub open spec fn outputs_of<T>(results: Seq<Poll<Option<T>>>) -> Seq<T>
    decreases results.len(),
{
    if results.len() == 0 {
        Seq::empty()
    } else {
        let earlier = outputs_of(results.drop_last());
        match results.last() {
            Poll::Ready(Some(out)) => earlier.push(out),
            _ => earlier,
        }
    }
}

/// Over any run of polls, the registry hands out the outputs of distinct
/// slots: `order[j]` is the slot whose output is the `j`-th that was handed
/// out. A slot that was in flight at the start has either been handed out
/// since or is in flight still, never both. So once a poll has reported the
/// end, every output has been handed out exactly once.
pub proof fn lemma_run_hands_out_each_once<Fut: Future>(
    states: Seq<Map<int, Fut>>,
    results: Seq<Poll<Option<Fut::Output>>>,
    holds: spec_fn(Fut, Fut::Output) -> bool,
    targets: Map<int, Fut::Output>,
) -> (order: Seq<int>)
    requires
        resolves_only_to(holds),
        registry_run(states, results),
        aims_at(states[0], holds, targets),
    ensures
        aims_at(states.last(), holds, targets),
        order.no_duplicates(),
        order.len() == outputs_of(results).len(),
        forall|j: int| 0 <= j < order.len() ==> outputs_of(results)[j] == targets[#[trigger] order[j]],
        forall|slot: int|
            #![trigger states[0].contains_key(slot)]
            #![trigger states.last().contains_key(slot)]
            #![trigger order.contains(slot)]
            states[0].contains_key(slot) <==> order.contains(slot) || states.last().contains_key(
                slot,
            ),
        forall|slot: int|
            #![trigger states.last().contains_key(slot)]
            #![trigger order.contains(slot)]
            order.contains(slot) ==> !states.last().contains_key(slot),
        results.len() > 0 && results.last() == Poll::<Option<Fut::Output>>::Ready(None)
            ==> order.to_set() =~= states[0].dom(),
    decreases results.len(),
{
    if results.len() == 0 {
        Seq::empty()
    } else {
        let n = results.len() as int;
        let earlier_states = states.drop_last();
        let earlier_results = results.drop_last();
        let earlier = lemma_run_hands_out_each_once(earlier_states, earlier_results, holds, targets);
        let from = states[n - 1];
        let to = states[n];
        let r = results[n - 1];
        lemma_hands_out_each_once(from, to, r, holds, targets);
        let order = match r {
            Poll::Ready(Some(out)) => {
                let slot = choose|slot: int|
                    {
                        &&& #[trigger] from.contains_key(slot)
                        &&& out == targets[slot]
                        &&& to.dom() =~= from.dom().remove(slot)
                    };
                let order = earlier.push(slot);
                assert forall|other: int|
                    #![trigger states[0].contains_key(other)]
                    #![trigger to.contains_key(other)]
                    #![trigger order.contains(other)]
                    states[0].contains_key(other) <==> order.contains(other) || to.contains_key(
                        other,
                    ) by {
                    if other == slot {
                        assert(order[earlier.len() as int] == slot);
                    }
                    if earlier.contains(other) {
                        let j = choose|j: int| 0 <= j < earlier.len() && earlier[j] == other;
                        assert(order[j] == other);
                    }
                }
                order
            },
            _ => {
                earlier
            },
        };
        order
    }
}

/// `list` without `slot`, which it holds once at most.
pub open spec fn without(list: Seq<int>, slot: int) -> Seq<int> {
    if list.contains(slot) {
        list.remove(list.index_of(slot))
    } else {
        list
    }
}

/// Whether `futures` holds the futures of `list`, the `i`-th in the slot
/// `slots[i]`, and nothing else.
pub open spec fn holds_list<Fut>(futures: Map<int, Fut>, list: Seq<Fut>, slots: Seq<int>) -> bool {
    &&& slots.len() == list.len()
    &&& slots.no_duplicates()
    &&& forall|slot: int| futures.contains_key(slot) <==> slots.contains(slot)
    &&& forall|i: int| 0 <= i < slots.len() ==> futures[#[trigger] slots[i]] == list[i]
}

} // verus!
