//! The sequential composition of two fallible futures, in which the step
//! between them may end the composition at once.

use vstd::prelude::*;
use std::task::Waker;
use crate::future::try_completes_with;
use crate::future::TryFuture;
use crate::task::Poll;

verus! {

/// The state of a sequential composition of two fallible futures.
#[derive(Debug)]
pub enum TryChain<Fut1, Fut2, Data> {
    /// The first future is running; the data is what the transform will get
    /// beside the first future's result.
    First(Fut1, Option<Data>),
    /// The second future is running.
    Second(Fut2),
    /// Nothing is left to run: the composition has completed.
    Empty,
}

/// What the transform makes of the first future's result.
pub enum TryChainAction<Fut2: TryFuture> {
    /// A future to run as the second stage.
    Future(Fut2),
    /// The result of the whole composition: no second stage is run.
    Output(Result<Fut2::Ok, Fut2::Error>),
}

impl<Fut1: TryFuture, Fut2: TryFuture, Data> TryChain<Fut1, Fut2, Data> {
    /// The states in which the chain may be polled.
    pub open spec fn pollable(&self) -> bool {
        match *self {
            TryChain::First(fut1, data) => fut1.try_pollable() && data is Some,
            TryChain::Second(fut2) => fut2.try_pollable(),
            TryChain::Empty => false,
        }
    }

    /// What a poll of the second future `fut2` does to the chain: a pending
    /// second future stays installed, a ready one leaves the chain empty.
    pub open spec fn second_polls_to(
        fut2: Fut2,
        next: &Self,
        r: Poll<Result<Fut2::Ok, Fut2::Error>>,
    ) -> bool {
        match r {
            Poll::Pending => *next is Second && fut2.try_polls_to(&next->Second_0, Poll::Pending),
            Poll::Ready(out) => *next is Empty && try_completes_with(fut2, out),
        }
    }

    /// Whether the chain is in its first stage, the poll of the first future
    /// returns `Pending`, and `next` is what is left.
    pub open spec fn first_stays(&self, next: &Self) -> bool {
        &&& *self is First
        &&& *next is First
        &&& self->First_0.try_polls_to(&next->First_0, Poll::Pending)
        &&& next->First_1 == self->First_1
    }

    /// What the chain does with what the transform hands back: a future is
    /// polled at once, an output ends the composition.
    pub open spec fn acts_on(
        action: TryChainAction<Fut2>,
        next: &Self,
        r: Poll<Result<Fut2::Ok, Fut2::Error>>,
    ) -> bool {
        match action {
            TryChainAction::Future(fut2) => Self::second_polls_to(fut2, next, r),
            TryChainAction::Output(out) => *next is Empty && r == Poll::Ready(out),
        }
    }

    /// Whether a poll with the transform `f` that starts in `self` may end in
    /// `next` and return `r`.
    pub open spec fn polls_to<F: FnOnce(Result<Fut1::Ok, Fut1::Error>, Data) -> TryChainAction<Fut2>>(
        &self,
        f: F,
        next: &Self,
        r: Poll<Result<Fut2::Ok, Fut2::Error>>,
    ) -> bool {
        match *self {
            TryChain::First(fut1, data) => {
                ||| r is Pending && self.first_stays(next)
                ||| exists|out1: Result<Fut1::Ok, Fut1::Error>, action: TryChainAction<Fut2>|
                    {
                        &&& try_completes_with(fut1, out1)
                        &&& #[trigger] call_ensures(f, (out1, data->0), action)
                        &&& Self::acts_on(action, next, r)
                    }
            },
            TryChain::Second(fut2) => Self::second_polls_to(fut2, next, r),
            TryChain::Empty => false,
        }
    }

    /// A chain that will run `fut1` and hand its result and `data` to the
    /// transform.
    pub fn new(fut1: Fut1, data: Data) -> (chain: TryChain<Fut1, Fut2, Data>)
        ensures
            chain == TryChain::<Fut1, Fut2, Data>::First(fut1, Some(data)),
    {
        TryChain::First(fut1, Some(data))
    }

    /// Whether the chain has completed.
    pub fn is_terminated(&self) -> (b: bool)
        ensures
            b == (self is Empty),
    {
        match self {
            TryChain::First(_, _) => false,
            TryChain::Second(_) => false,
            TryChain::Empty => true,
        }
    }

    /// Polls the second future and installs what is left of it.
    fn poll_second(&mut self, mut fut2: Fut2, waker: &Waker) -> (r: Poll<
        Result<Fut2::Ok, Fut2::Error>,
    >)
        requires
            fut2.try_pollable(),
        ensures
            Self::second_polls_to(fut2, final(self), r),
            r is Pending ==> final(self).pollable(),
            r is Ready ==> *final(self) is Empty,
    {
        let r = fut2.try_poll(waker);
        match r {
            Poll::Pending => {
                *self = TryChain::Second(fut2);
                Poll::Pending
            },
            Poll::Ready(out) => {
                *self = TryChain::Empty;
                Poll::Ready(out)
            },
        }
    }

    /// Runs the chain one step further.
    ///
    /// While the first future is pending the chain stays as it is. Once it is
    /// ready, its result and the stored data go to `f`. Where `f` hands back a
    /// future, that future is polled at once and a pending one ends this poll;
    /// where `f` hands back an output, that output is returned and no second
    /// future is ever built. After `Ready` the chain is left `Empty`.
    pub fn poll<F>(&mut self, waker: &Waker, f: F) -> (r: Poll<Result<Fut2::Ok, Fut2::Error>>) where
        F: FnOnce(Result<Fut1::Ok, Fut1::Error>, Data) -> TryChainAction<Fut2>,

        requires
            old(self).pollable(),
            *old(self) is First ==> forall|out1: Result<Fut1::Ok, Fut1::Error>|
                call_requires(f, (out1, old(self)->First_1->0)),
            *old(self) is First ==> forall|out1: Result<Fut1::Ok, Fut1::Error>, fut2: Fut2|
                call_ensures(f, (out1, old(self)->First_1->0), TryChainAction::Future(fut2))
                    ==> fut2.try_pollable(),
        ensures
            old(self).polls_to(f, final(self), r),
            r is Pending ==> final(self).pollable(),
            r is Ready ==> *final(self) is Empty,
    {
        let mut state = TryChain::Empty;
        std::mem::swap(self, &mut state);
        match state {
            TryChain::First(mut fut1, data) => {
                match fut1.try_poll(waker) {
                    Poll::Pending => {
                        *self = TryChain::First(fut1, data);
                        Poll::Pending
                    },
                    Poll::Ready(out1) => {
                        let action = f(out1, data.unwrap());
                        match action {
                            TryChainAction::Future(fut2) => {
                                self.poll_second(fut2, waker)
                            },
                            TryChainAction::Output(out) => {
                                Poll::Ready(out)
                            },
                        }
                    },
                }
            },
            TryChain::Second(fut2) => self.poll_second(fut2, waker),
            TryChain::Empty => Poll::Pending,
        }
    }
}

} // verus!
