//! The state machine behind every "run one future, then build and run a second
//! one from its output" combinator.

use vstd::prelude::*;
use crate::future::completes_with;
use crate::future::Future;
use crate::task::Poll;
use std::task::Waker;

verus! {

/// The state of a sequential composition of two futures.
#[derive(Debug)]
pub enum Chain<Fut1, Fut2, Data> {
    /// The first future is running; the data is what the transform will get
    /// beside the first future's output.
    First(Fut1, Option<Data>),
    /// The second future is running.
    Second(Fut2),
    /// Nothing is left to run: the composition has completed.
    Empty,
}

impl<Fut1: Future, Fut2: Future, Data> Chain<Fut1, Fut2, Data> {
    /// The states in which the chain may be polled.
    pub open spec fn pollable(&self) -> bool {
        match *self {
            Chain::First(fut1, data) => fut1.pollable() && data is Some,
            Chain::Second(fut2) => fut2.pollable(),
            Chain::Empty => false,
        }
    }

    /// What a poll of the second future `fut2` does to the chain: a pending
    /// second future stays installed, a ready one leaves the chain empty.
    pub open spec fn second_polls_to(fut2: Fut2, next: &Self, r: Poll<Fut2::Output>) -> bool {
        match r {
            Poll::Pending => *next is Second && fut2.polls_to(&next->Second_0, Poll::Pending),
            Poll::Ready(out) => *next is Empty && completes_with(fut2, out),
        }
    }

    /// Whether the chain is in its first stage, the poll of the first future
    /// returns `Pending`, and `next` is what is left.
    pub open spec fn first_stays(&self, next: &Self) -> bool {
        &&& *self is First
        &&& *next is First
        &&& self->First_0.polls_to(&next->First_0, Poll::Pending)
        &&& next->First_1 == self->First_1
    }

    /// Whether a poll with the transform `f` that starts in `self` may end in
    /// `next` and return `r`.
    pub open spec fn polls_to<F: FnOnce(Fut1::Output, Data) -> Fut2>(
        &self,
        f: F,
        next: &Self,
        r: Poll<Fut2::Output>,
    ) -> bool {
        match *self {
            Chain::First(fut1, data) => {
                ||| r is Pending && self.first_stays(next)
                ||| exists|out1: Fut1::Output, fut2: Fut2|
                    {
                        &&& completes_with(fut1, out1)
                        &&& #[trigger] call_ensures(f, (out1, data->0), fut2)
                        &&& Self::second_polls_to(fut2, next, r)
                    }
            },
            Chain::Second(fut2) => Self::second_polls_to(fut2, next, r),
            Chain::Empty => false,
        }
    }

    /// Whether the chain has completed.
    pub fn is_terminated(&self) -> (b: bool)
        ensures
            b == (self is Empty),
    {
        match self {
            Chain::Empty => true,
            _ => false,
        }
    }

    /// A chain that will run `fut1` and hand its output and `data` to the
    /// transform.
    pub fn new(fut1: Fut1, data: Data) -> (chain: Chain<Fut1, Fut2, Data>)
        ensures
            chain == Chain::<Fut1, Fut2, Data>::First(fut1, Some(data)),
    {
        Chain::First(fut1, Some(data))
    }

    /// Polls the second future and installs what is left of it.
    fn poll_second(&mut self, mut fut2: Fut2, waker: &Waker) -> (r: Poll<Fut2::Output>)
        requires
            fut2.pollable(),
        ensures
            Self::second_polls_to(fut2, final(self), r),
            r is Pending ==> final(self).pollable(),
    {
        let r = fut2.poll(waker);
        match r {
            Poll::Pending => {
                *self = Chain::Second(fut2);
                Poll::Pending
            },
            Poll::Ready(out) => {
                *self = Chain::Empty;
                Poll::Ready(out)
            },
        }
    }

    /// Runs the chain one step further.
    ///
    /// While the first future is pending the chain stays as it is. Once it is
    /// ready, its output and the stored data go to `f`, and the future that `f`
    /// builds is polled at once. A second future that is pending ends this
    /// poll. When the second future is ready the chain is left `Empty`.
    pub fn poll<F>(&mut self, waker: &Waker, f: F) -> (r: Poll<Fut2::Output>) where
        F: FnOnce(Fut1::Output, Data) -> Fut2,

        requires
            old(self).pollable(),
            *old(self) is First ==> forall|out1: Fut1::Output|
                call_requires(f, (out1, old(self)->First_1->0)),
            *old(self) is First ==> forall|out1: Fut1::Output, fut2: Fut2|
                call_ensures(f, (out1, old(self)->First_1->0), fut2) ==> fut2.pollable(),
        ensures
            old(self).polls_to(f, final(self), r),
            r is Pending ==> final(self).pollable(),
            r is Ready ==> *final(self) is Empty,
    {
        let mut state = Chain::Empty;
        std::mem::swap(self, &mut state);
        match state {
            Chain::First(mut fut1, data) => {
                match fut1.poll(waker) {
                    Poll::Pending => {
                        *self = Chain::First(fut1, data);
                        Poll::Pending
                    },
                    Poll::Ready(out1) => {
                        let fut2 = f(out1, data.unwrap());
                        self.poll_second(fut2, waker)
                    },
                }
            },
            Chain::Second(fut2) => self.poll_second(fut2, waker),
            Chain::Empty => Poll::Pending,
        }
    }
}

} // verus!
