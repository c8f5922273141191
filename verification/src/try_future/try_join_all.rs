//! Waiting for all of a list of fallible futures, or for the first error.

use vstd::prelude::*;
use std::task::Waker;
use crate::future::Future;
use crate::future::try_completes_with;
use crate::future::TryFuture;
use crate::stream::futures_unordered::reversed;
use crate::task::Poll;

verus! {

/// One of the futures of a `TryJoinAll`: still running, or done, with its
/// value until the value is taken.
pub enum ElemState<F: TryFuture> {
    Pending(F),
    Done(Option<F::Ok>),
}

impl<F: TryFuture> ElemState<F> {
    /// Takes the value of a future that is done; `None` where the future is
    /// still running or the value has been taken.
    pub fn take_done(&mut self) -> (value: Option<F::Ok>)
        ensures
            match *old(self) {
                ElemState::Pending(_) => value is None && *final(self) == *old(self),
                ElemState::Done(held) => value == held && *final(self) == ElemState::<F>::Done(
                    None,
                ),
            },
    {
        match self {
            ElemState::Pending(_) => None,
            ElemState::Done(held) => held.take(),
        }
    }

    /// What one poll does to one element: a future that is done stays as it
    /// is; one that is running stays running after a pending poll, or is done
    /// with the value it succeeded with.
    pub open spec fn steps_to(self, next: Self) -> bool {
        match self {
            ElemState::Done(_) => next == self,
            ElemState::Pending(fut) => match next {
                ElemState::Pending(left) => fut.try_polls_to(&left, Poll::Pending),
                ElemState::Done(value) => value is Some && try_completes_with(fut, Ok(value->0)),
            },
        }
    }
}

/// Whether `to` is `from` after one poll of each of its first `upto`
/// elements, none of which failed.
pub open spec fn passes<F: TryFuture>(
    from: Seq<ElemState<F>>,
    to: Seq<ElemState<F>>,
    upto: int,
) -> bool {
    &&& to.len() == from.len()
    &&& forall|i: int| 0 <= i < upto && i < from.len() ==> from[i].steps_to(#[trigger] to[i])
    &&& forall|i: int| upto <= i < from.len() ==> #[trigger] to[i] == from[i]
}

/// Whether every element is done and holds the value that `values` has in
/// its place.
pub open spec fn all_done<F: TryFuture>(elems: Seq<ElemState<F>>, values: Seq<F::Ok>) -> bool {
    &&& values.len() == elems.len()
    &&& forall|i: int|
        0 <= i < elems.len() ==> #[trigger] elems[i] == ElemState::<F>::Done(Some(values[i]))
}

/// Future for the `try_join_all` function: resolves to the values of all the
/// futures, in the order of the futures, or to the first error that a poll
/// comes across.
pub struct TryJoinAll<F: TryFuture> {
    pub elems: Vec<ElemState<F>>,
}

/// Creates a future which represents either a collection of the results of
/// the futures given or an error.
///
/// The futures run side by side. Once one of them fails, the whole resolves
/// to that error and the others are dropped.
pub fn try_join_all<F: TryFuture>(futures: Vec<F>) -> (joined: TryJoinAll<F>)
    ensures
        joined.elems@.len() == futures@.len(),
        forall|i: int|
            0 <= i < futures@.len() ==> #[trigger] joined.elems@[i] == ElemState::Pending(
                futures@[i],
            ),
{
    let mut rest = reversed(futures);
    let mut elems: Vec<ElemState<F>> = Vec::new();
    while rest.len() > 0
        invariant
            elems@.len() + rest@.len() == futures@.len(),
            forall|i: int|
                0 <= i < rest@.len() ==> #[trigger] rest@[i] == futures@[futures@.len() - 1 - i],
            forall|i: int|
                0 <= i < elems@.len() ==> #[trigger] elems@[i] == ElemState::Pending(futures@[i]),
        decreases rest@.len(),
    {
        let fut = rest.pop().unwrap();
        elems.push(ElemState::Pending(fut));
    }
    TryJoinAll { elems }
}

impl<F: TryFuture> TryJoinAll<F> {
    /// Takes the values out of the elements, which are all done.
    fn take_values(&mut self) -> (values: Vec<F::Ok>)
        requires
            exists|held: Seq<F::Ok>| all_done(old(self).elems@, held),
        ensures
            all_done(old(self).elems@, values@),
            final(self).elems@.len() == 0,
    {
        let ghost held = choose|held: Seq<F::Ok>| all_done(old(self).elems@, held);
        let mut elems: Vec<ElemState<F>> = Vec::new();
        std::mem::swap(&mut self.elems, &mut elems);
        let mut values: Vec<F::Ok> = Vec::new();
        let mut i: usize = 0;
        while i < elems.len()
            invariant
                i <= elems@.len(),
                elems@.len() == held.len(),
                values@.len() == i,
                forall|j: int| 0 <= j < i ==> values@[j] == held[j],
                forall|j: int|
                    i <= j < elems@.len() ==> #[trigger] elems@[j] == ElemState::<F>::Done(
                        Some(held[j]),
                    ),
            decreases elems@.len() - i,
        {
            let value = elems[i].take_done().unwrap();
            values.push(value);
            i = i + 1;
        }
        values
    }

    /// The states in which the future may be polled.
    pub open spec fn pollable(&self) -> bool {
        forall|i: int|
            0 <= i < self.elems@.len() ==> match #[trigger] self.elems@[i] {
                ElemState::Pending(fut) => fut.try_pollable(),
                ElemState::Done(value) => value is Some,
            }
    }

    /// Whether a poll that starts in `self` may end in `next` and return `r`.
    pub open spec fn polls_to(&self, next: &Self, r: Poll<Result<Vec<F::Ok>, F::Error>>) -> bool {
        match r {
            Poll::Pending => passes(self.elems@, next.elems@, self.elems@.len() as int)
                && exists|i: int| 0 <= i < next.elems@.len() && #[trigger] next.elems@[i] is Pending,
            Poll::Ready(Ok(values)) => next.elems@.len() == 0 && exists|polled: Seq<ElemState<F>>|
                #[trigger] passes(self.elems@, polled, self.elems@.len() as int) && all_done(
                    polled,
                    values@,
                ),
            Poll::Ready(Err(e)) => next.elems@.len() == 0 && exists|
                polled: Seq<ElemState<F>>,
                failed: int,
            |
                {
                    &&& 0 <= failed < self.elems@.len()
                    &&& #[trigger] passes(self.elems@, polled, failed)
                    &&& self.elems@[failed] is Pending
                    &&& try_completes_with(self.elems@[failed]->Pending_0, Err(e))
                },
        }
    }

    /// Polls every future that is still running, in order, up to the first
    /// that fails.
    pub fn poll(&mut self, waker: &Waker) -> (r: Poll<Result<Vec<F::Ok>, F::Error>>)
        requires
            old(self).pollable(),
        ensures
            old(self).polls_to(final(self), r),
            r is Pending ==> final(self).pollable(),
    {
        let ghost start = self.elems@;
        let mut any_pending = false;
        let ghost mut pending_at: int = 0;
        let mut i: usize = 0;
        while i < self.elems.len()
            invariant
                i <= self.elems@.len(),
                start == old(self).elems@,
                old(self).pollable(),
                passes(start, self.elems@, i as int),
                any_pending ==> 0 <= pending_at < i && self.elems@[pending_at] is Pending,
                !any_pending ==> forall|j: int|
                    0 <= j < i ==> (#[trigger] self.elems@[j]) is Done && self.elems@[j]->Done_0
                        is Some,
                self.pollable(),
            decreases self.elems@.len() - i,
        {
            let mut elem = ElemState::Done(None);
            std::mem::swap(&mut self.elems[i], &mut elem);
            match elem {
                ElemState::Done(value) => {
                    self.elems.set(i, ElemState::Done(value));
                },
                ElemState::Pending(mut fut) => {
                    match fut.try_poll(waker) {
                        Poll::Pending => {
                            self.elems.set(i, ElemState::Pending(fut));
                            any_pending = true;
                            proof {
                                pending_at = i as int;
                            }
                        },
                        Poll::Ready(Ok(value)) => {
                            self.elems.set(i, ElemState::Done(Some(value)));
                        },
                        Poll::Ready(Err(e)) => {
                            self.elems = Vec::new();
                            return Poll::Ready(Err(e));
                        },
                    }
                },
            }
            i = i + 1;
        }
        if any_pending {
            Poll::Pending
        } else {
            let ghost polled = self.elems@;
            proof {
                let held = Seq::new(polled.len(), |j: int| polled[j]->Done_0->0);
                assert(all_done(polled, held));
            }
            let values = self.take_values();
            Poll::Ready(Ok(values))
        }
    }

    /// As a `Future`, this polls as `pollable` and `polls_to` say.
    pub proof fn lemma_future(&self, next: &Self, r: Poll<Result<Vec<F::Ok>, F::Error>>)
        ensures
            Future::pollable(self) == self.pollable(),
            Future::polls_to(self, next, r) == self.polls_to(next, r),
    {
    }
}

impl<F: TryFuture> Future for TryJoinAll<F> {
    type Output = Result<Vec<F::Ok>, F::Error>;

    open spec fn pollable(&self) -> bool {
        TryJoinAll::pollable(self)
    }

    open spec fn polls_to(&self, next: &Self, r: Poll<Result<Vec<F::Ok>, F::Error>>) -> bool {
        TryJoinAll::polls_to(self, next, r)
    }

    fn poll(&mut self, waker: &Waker) -> (r: Poll<Result<Vec<F::Ok>, F::Error>>) {
        TryJoinAll::poll(self, waker)
    }
}

} // verus!
