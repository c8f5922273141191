//! Polls that work in rounds, and yield when they have worked long enough.

use vstd::prelude::*;
use std::task::Waker;
use crate::task::Poll;

verus! {

/// How many rounds a poll works through before it yields: it then wakes its
/// own waker and returns `Pending`, so that one poll never does unbounded work.
pub const YIELD_EVERY: usize = 32;

/// A state machine whose poll is a loop of rounds.
///
/// A round either ends the poll with a result or leaves the machine in a state
/// from which the next round goes on. `round` is the relation that one round
/// obeys; the poll as a whole is `run_rounds`.
pub trait PollLoop: Sized {
    /// What the poll returns when it is ready.
    type Ready;

    /// The states in which a round may begin.
    spec fn loop_inv(&self) -> bool;

    /// What holds of the state that a poll leaves when it returns `Ready`.
    spec fn ready_inv(&self) -> bool;

    /// Whether a round that starts in `self` may end in `next`, with `out` as
    /// the result of the poll, or with `None` where the poll goes on.
    spec fn round(&self, next: &Self, out: Option<Poll<Self::Ready>>) -> bool;

    /// Works through one round.
    fn step(&mut self, waker: &Waker) -> (out: Option<Poll<Self::Ready>>)
        requires
            old(self).loop_inv(),
        ensures
            old(self).round(final(self), out),
            out matches Some(Poll::Ready(_)) ==> final(self).ready_inv(),
            !(out matches Some(Poll::Ready(_))) ==> final(self).loop_inv(),
    ;
}

/// Whether `rounds` rounds that each let the poll go on lead from `from` to
/// `to`, each to a state in which the next round may begin.
pub open spec fn goes_on<M: PollLoop>(from: M, to: M, rounds: nat) -> bool
    decreases rounds,
{
    if rounds == 0 {
        to == from
    } else {
        exists|mid: M|
            {
                &&& goes_on(from, mid, (rounds - 1) as nat)
                &&& #[trigger] mid.round(&to, None)
                &&& to.loop_inv()
            }
    }
}

/// What one poll of a machine that works in rounds may do: up to
/// `YIELD_EVERY` rounds that let the poll go on, and then either a round that
/// ends the poll with `r`, or, after `YIELD_EVERY` rounds, `Pending`.
pub open spec fn runs_to<M: PollLoop>(from: M, to: M, r: Poll<M::Ready>) -> bool {
    exists|mid: M, rounds: nat|
        {
            &&& rounds <= YIELD_EVERY
            &&& #[trigger] goes_on(from, mid, rounds)
            &&& {
                ||| mid.round(&to, Some(r))
                ||| rounds == YIELD_EVERY && r is Pending && to == mid
            }
        }
}

/// Polls a machine that works in rounds: runs rounds until one ends the poll.
/// After `YIELD_EVERY` rounds the poll yields instead: it wakes `waker`, so
/// that the task is polled again, and returns `Pending`.
pub fn run_rounds<M: PollLoop>(machine: &mut M, waker: &Waker) -> (r: Poll<M::Ready>)
    requires
        old(machine).loop_inv(),
    ensures
        runs_to(*old(machine), *final(machine), r),
        r is Ready ==> final(machine).ready_inv(),
        r is Pending ==> final(machine).loop_inv(),
{
    let mut rounds: usize = 0;
    while rounds < YIELD_EVERY
        invariant
            rounds <= YIELD_EVERY,
            machine.loop_inv(),
            goes_on(*old(machine), *machine, rounds as nat),
        decreases YIELD_EVERY - rounds,
    {
        match machine.step(waker) {
            Some(r) => {
                return r;
            },
            None => {
                rounds = rounds + 1;
            },
        }
    }
    waker.wake_by_ref();
    Poll::Pending
}

/// A machine from which no round lets the poll go on stays where it is until
/// the round that ends the poll.
pub proof fn lemma_no_round_goes_on<M: PollLoop>(from: M, to: M, rounds: nat)
    requires
        goes_on(from, to, rounds),
        forall|next: M| !#[trigger] from.round(&next, None),
    ensures
        rounds == 0,
        to == from,
    decreases rounds,
{
    if rounds > 0 {
        let mid = choose|mid: M|
            {
                &&& goes_on(from, mid, (rounds - 1) as nat)
                &&& #[trigger] mid.round(&to, None)
                &&& to.loop_inv()
            };
        lemma_no_round_goes_on(from, mid, (rounds - 1) as nat);
    }
}

} // verus!
