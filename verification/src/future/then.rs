//! Chaining a computation on the end of a future.

use vstd::prelude::*;
use crate::future::chain::Chain;
use crate::future::completes_with;
use crate::future::FusedFuture;
use crate::future::Future;
use crate::future::resolves_after;
use crate::task::Poll;
use std::task::Waker;

verus! {

/// Future for the `then` combinator: runs a future, hands its output to a
/// function, and runs the future that the function builds.
#[derive(Debug)]
pub struct Then<Fut1, Fut2, F> {
    pub chain: Chain<Fut1, Fut2, F>,
}

impl<Fut1: Future, Fut2: Future, F> Then<Fut1, Fut2, F> {
    /// Creates a new `Then`.
    pub fn new(future: Fut1, f: F) -> (then: Then<Fut1, Fut2, F>)
        ensures
            then.chain == Chain::<Fut1, Fut2, F>::First(future, Some(f)),
    {
        Then { chain: Chain::new(future, f) }
    }
}

impl<Fut1, Fut2, F> Then<Fut1, Fut2, F> where
    Fut1: Future,
    Fut2: Future,
    F: FnOnce(Fut1::Output) -> Fut2,
 {
    /// The states in which the composition may be polled: its stage may be
    /// polled, and the function may be called with every output of the first
    /// future and builds only futures that may be polled.
    pub open spec fn pollable(&self) -> bool {
        &&& self.chain.pollable()
        &&& self.chain is First ==> forall|out1: Fut1::Output| #[trigger]
            call_requires(self.chain->First_1->0, (out1,))
        &&& self.chain is First ==> forall|out1: Fut1::Output, fut2: Fut2| #[trigger]
            call_ensures(self.chain->First_1->0, (out1,), fut2) ==> fut2.pollable()
    }

    /// Whether a poll that starts in `self` may end in `next` and return `r`.
    pub open spec fn polls_to(&self, next: &Self, r: Poll<Fut2::Output>) -> bool {
        match self.chain {
            Chain::First(fut1, f) => {
                ||| r is Pending && self.chain.first_stays(&next.chain)
                ||| exists|out1: Fut1::Output, fut2: Fut2|
                    {
                        &&& completes_with(fut1, out1)
                        &&& #[trigger] call_ensures(f->0, (out1,), fut2)
                        &&& Chain::<Fut1, Fut2, F>::second_polls_to(fut2, &next.chain, r)
                    }
            },
            Chain::Second(fut2) => Chain::<Fut1, Fut2, F>::second_polls_to(fut2, &next.chain, r),
            Chain::Empty => false,
        }
    }

    /// Runs the composition one step further: polls the first future, and
    /// once that is ready, builds the second future from its output and polls
    /// it, in the same poll and from then on.
    pub fn poll(&mut self, waker: &Waker) -> (r: Poll<Fut2::Output>)
        requires
            old(self).pollable(),
        ensures
            old(self).polls_to(final(self), r),
            r is Pending ==> final(self).pollable(),
            r is Ready ==> final(self).chain is Empty,
    {
        let apply = |out1: Fut1::Output, f: F| -> (fut2: Fut2)
            requires
                call_requires(f, (out1,)),
            ensures
                call_ensures(f, (out1,), fut2),
            { f(out1) };
        self.chain.poll(waker, apply)
    }

    /// As a `Future`, this polls as `pollable` and `polls_to` say.
    pub proof fn lemma_future(&self, next: &Self, r: Poll<Fut2::Output>)
        ensures
            Future::pollable(self) == self.pollable(),
            Future::polls_to(self, next, r) == self.polls_to(next, r),
    {
    }
}

impl<Fut1, Fut2, F> Future for Then<Fut1, Fut2, F> where
    Fut1: Future,
    Fut2: Future,
    F: FnOnce(Fut1::Output) -> Fut2,
 {
    type Output = Fut2::Output;

    open spec fn pollable(&self) -> bool {
        Then::pollable(self)
    }

    open spec fn polls_to(&self, next: &Self, r: Poll<Fut2::Output>) -> bool {
        Then::polls_to(self, next, r)
    }

    fn poll(&mut self, waker: &Waker) -> (r: Poll<Fut2::Output>) {
        Then::poll(self, waker)
    }
}

impl<Fut1, Fut2, F> Then<Fut1, Fut2, F> where
    Fut1: Future,
    Fut2: Future,
    F: FnOnce(Fut1::Output) -> Fut2,
 {
    /// Whether the composition has completed.
    pub open spec fn terminated(&self) -> bool {
        self.chain is Empty
    }

    /// Returns `true` if the composition should no longer be polled.
    pub fn is_terminated(&self) -> (b: bool)
        ensures
            b == self.terminated(),
    {
        self.chain.is_terminated()
    }
}

impl<Fut1, Fut2, F> FusedFuture for Then<Fut1, Fut2, F> where
    Fut1: Future,
    Fut2: Future,
    F: FnOnce(Fut1::Output) -> Fut2,
 {
    open spec fn terminated(&self) -> bool {
        Then::terminated(self)
    }

    fn is_terminated(&self) -> (b: bool) {
        Then::is_terminated(self)
    }

    proof fn lemma_fused(&self, next: &Self, r: Poll<Fut2::Output>) {
    }
}

/// Once the second future is installed, the composition resolves exactly as
/// the second future does.
pub proof fn lemma_second_stage_resolves<Fut1, Fut2, F>(
    then: Then<Fut1, Fut2, F>,
    pending: nat,
    out: Fut2::Output,
) where Fut1: Future, Fut2: Future, F: FnOnce(Fut1::Output) -> Fut2
    requires
        then.chain is Second,
    ensures
        resolves_after(then, pending, out) <==> resolves_after(then.chain->Second_0, pending, out),
    decreases pending,
{
    let fut2 = then.chain->Second_0;
    if pending == 0 {
        if completes_with(then, out) {
            let done = choose|done: Then<Fut1, Fut2, F>| Future::polls_to(&then, &done, Poll::Ready(out));
            assert(Future::polls_to(&then, &done, Poll::Ready(out)));
        }
        if completes_with(fut2, out) {
            let done = Then { chain: Chain::<Fut1, Fut2, F>::Empty };
            assert(Future::polls_to(&then, &done, Poll::Ready(out)));
        }
    } else {
        let rest = (pending - 1) as nat;
        if resolves_after(then, pending, out) {
            let next = choose|next: Then<Fut1, Fut2, F>| #[trigger]
                Future::polls_to(&then, &next, Poll::Pending) && resolves_after(next, rest, out);
            lemma_second_stage_resolves(next, rest, out);
            assert(fut2.polls_to(&next.chain->Second_0, Poll::Pending));
        }
        if resolves_after(fut2, pending, out) {
            let next2 = choose|next2: Fut2| #[trigger]
                fut2.polls_to(&next2, Poll::Pending) && resolves_after(next2, rest, out);
            let next = Then { chain: Chain::<Fut1, Fut2, F>::Second(next2) };
            lemma_second_stage_resolves(next, rest, out);
            assert(Future::polls_to(&then, &next, Poll::Pending));
        }
    }
}

/// If the first future resolves to `out1` after `pending1` pending polls, and
/// the future that the function builds from `out1` resolves to `out` after
/// `pending2` pending polls, then the composition resolves to `out` after
/// `pending1 + pending2` pending polls.
pub proof fn lemma_then_resolves_after<Fut1, Fut2, F>(
    then: Then<Fut1, Fut2, F>,
    pending1: nat,
    out1: Fut1::Output,
    fut2: Fut2,
    pending2: nat,
    out: Fut2::Output,
) where Fut1: Future, Fut2: Future, F: FnOnce(Fut1::Output) -> Fut2
    requires
        then.chain is First,
        then.chain->First_1 is Some,
        resolves_after(then.chain->First_0, pending1, out1),
        call_ensures(then.chain->First_1->0, (out1,), fut2),
        resolves_after(fut2, pending2, out),
    ensures
        resolves_after(then, pending1 + pending2, out),
    decreases pending1,
{
    let fut1 = then.chain->First_0;
    let f = then.chain->First_1;
    if pending1 == 0 {
        if pending2 == 0 {
            let done = Then { chain: Chain::<Fut1, Fut2, F>::Empty };
            assert(Future::polls_to(&then, &done, Poll::Ready(out)));
        } else {
            let rest = (pending2 - 1) as nat;
            let next2 = choose|next2: Fut2| #[trigger]
                fut2.polls_to(&next2, Poll::Pending) && resolves_after(next2, rest, out);
            let next = Then { chain: Chain::<Fut1, Fut2, F>::Second(next2) };
            lemma_second_stage_resolves(next, rest, out);
            assert(Chain::<Fut1, Fut2, F>::second_polls_to(fut2, &next.chain, Poll::Pending));
            assert(Future::polls_to(&then, &next, Poll::Pending));
        }
    } else {
        let rest = (pending1 - 1) as nat;
        let next1 = choose|next1: Fut1| #[trigger]
            fut1.polls_to(&next1, Poll::Pending) && resolves_after(next1, rest, out1);
        let next = Then { chain: Chain::<Fut1, Fut2, F>::First(next1, f) };
        lemma_then_resolves_after(next, rest, out1, fut2, pending2, out);
        assert(then.chain.first_stays(&next.chain));
        assert(Future::polls_to(&then, &next, Poll::Pending));
        assert(rest + pending2 == pending1 + pending2 - 1);
    }
}

/// If the composition resolves to `out` after `pending` pending polls, then
/// the polls split in two: the first future resolves after some `pending1`
/// pending polls, the future built from its output resolves to `out` after
/// some `pending2`, and `pending1 + pending2 == pending`. The composition
/// never takes fewer polls than its two stages together, and never more.
pub proof fn lemma_then_resolves_only_after<Fut1, Fut2, F>(
    then: Then<Fut1, Fut2, F>,
    pending: nat,
    out: Fut2::Output,
) where Fut1: Future, Fut2: Future, F: FnOnce(Fut1::Output) -> Fut2
    requires
        then.chain is First,
        then.chain->First_1 is Some,
        resolves_after(then, pending, out),
    ensures
        exists|pending1: nat, out1: Fut1::Output, fut2: Fut2, pending2: nat|
            {
                &&& pending1 + pending2 == pending
                &&& #[trigger] resolves_after(then.chain->First_0, pending1, out1)
                &&& call_ensures(then.chain->First_1->0, (out1,), fut2)
                &&& #[trigger] resolves_after(fut2, pending2, out)
            },
    decreases pending,
{
    let fut1 = then.chain->First_0;
    let f = then.chain->First_1->0;
    if pending == 0 {
        let done = choose|done: Then<Fut1, Fut2, F>| Future::polls_to(&then, &done, Poll::Ready(out));
        assert(Future::polls_to(&then, &done, Poll::Ready(out)));
        let (out1, fut2) = choose|out1: Fut1::Output, fut2: Fut2|
            {
                &&& completes_with(fut1, out1)
                &&& #[trigger] call_ensures(f, (out1,), fut2)
                &&& Chain::<Fut1, Fut2, F>::second_polls_to(fut2, &done.chain, Poll::Ready(out))
            };
        assert(resolves_after(fut1, 0, out1));
        assert(resolves_after(fut2, 0, out));
    } else {
        let rest = (pending - 1) as nat;
        let next = choose|next: Then<Fut1, Fut2, F>| #[trigger]
            Future::polls_to(&then, &next, Poll::Pending) && resolves_after(next, rest, out);
        if then.chain.first_stays(&next.chain) {
            lemma_then_resolves_only_after(next, rest, out);
            let (pending1, out1, fut2, pending2) = choose|
                pending1: nat,
                out1: Fut1::Output,
                fut2: Fut2,
                pending2: nat,
            |
                {
                    &&& pending1 + pending2 == rest
                    &&& #[trigger] resolves_after(next.chain->First_0, pending1, out1)
                    &&& call_ensures(next.chain->First_1->0, (out1,), fut2)
                    &&& #[trigger] resolves_after(fut2, pending2, out)
                };
            assert(fut1.polls_to(&next.chain->First_0, Poll::Pending));
            assert(resolves_after(fut1, pending1 + 1, out1));
            assert((pending1 + 1) + pending2 == pending);
        } else {
            let (out1, fut2) = choose|out1: Fut1::Output, fut2: Fut2|
                {
                    &&& completes_with(fut1, out1)
                    &&& #[trigger] call_ensures(f, (out1,), fut2)
                    &&& Chain::<Fut1, Fut2, F>::second_polls_to(fut2, &next.chain, Poll::Pending)
                };
            lemma_second_stage_resolves(next, rest, out);
            assert(fut2.polls_to(&next.chain->Second_0, Poll::Pending));
            assert(resolves_after(fut2, pending, out));
            assert(resolves_after(fut1, 0, out1));
            assert(0 + pending == pending);
        }
    }
}

} // verus!
