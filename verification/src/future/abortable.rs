//! Futures that can be stopped from outside.

use vstd::prelude::*;
use vstd::rwlock::RwLock;
use vstd::rwlock::RwLockPredicate;
use std::sync::atomic::AtomicBool;
use std::sync::atomic::Ordering;
use std::sync::Arc;
use std::task::Waker;
use crate::future::Future;
use crate::task::Poll;

verus! {

/// The lock of an `AbortInner` accepts every waker.
pub struct AnyWaker;

impl RwLockPredicate<Option<Waker>> for AnyWaker {
    open spec fn inv(self, waker: Option<Waker>) -> bool {
        true
    }
}

/// What an `Abortable` shares with its handles: the waker of the task that
/// polled it last, and whether it has been aborted.
pub struct AbortInner {
    waker: RwLock<Option<Waker>, AnyWaker>,
    cancel: AtomicBool,
}

impl AbortInner {
    /// Keeps a clone of `waker` as the waker to wake on an abort.
    fn register(&self, waker: &Waker) {
        let (_, handle) = self.waker.acquire_write();
        handle.release_write(Some(waker.clone()));
    }

    /// Wakes the waker that was registered last, if there is one.
    fn wake(&self) {
        let (registered, handle) = self.waker.acquire_write();
        handle.release_write(None);
        match registered {
            Some(waker) => waker.wake_by_ref(),
            None => {},
        }
    }
}

/// A future which can be remotely short-circuited using an `AbortHandle`.
#[derive(Clone)]
pub struct Abortable<Fut> {
    pub future: Fut,
    pub inner: Arc<AbortInner>,
}

/// A registration handle for an `Abortable` future. Values of this type come
/// from `AbortHandle::new_pair` and go into `Abortable::new`.
pub struct AbortRegistration {
    pub inner: Arc<AbortInner>,
}

/// A handle to an `Abortable` future.
#[derive(Clone)]
pub struct AbortHandle {
    pub inner: Arc<AbortInner>,
}

/// Indicator that the `Abortable` future was aborted.
#[derive(Copy, Clone, Debug, PartialEq, Eq, Structural)]
pub struct Aborted;

impl<Fut: Future> Abortable<Fut> {
    /// Creates a new `Abortable` future using an existing
    /// `AbortRegistration`.
    ///
    /// Once `abort` has been called on the handle tied to `reg`, the future
    /// completes at its next poll without making further progress.
    pub fn new(future: Fut, reg: AbortRegistration) -> (abortable: Abortable<Fut>)
        ensures
            abortable.future == future,
            abortable.inner == reg.inner,
    {
        Abortable { future, inner: reg.inner }
    }
}

impl AbortHandle {
    /// Creates an (`AbortHandle`, `AbortRegistration`) pair which can be used
    /// to abort a running future.
    pub fn new_pair() -> (pair: (AbortHandle, AbortRegistration))
        ensures
            pair.0.inner == pair.1.inner,
    {
        let inner = Arc::new(
            AbortInner { waker: RwLock::new(None, Ghost(AnyWaker)), cancel: AtomicBool::new(false) },
        );
        let shared = inner.clone();
        (AbortHandle { inner: shared }, AbortRegistration { inner })
    }

    /// Abort the `Abortable` future associated with this handle.
    ///
    /// The future completes with `Err(Aborted)` at its next poll. A poll that
    /// is running on another thread is not interrupted.
    pub fn abort(&self) {
        self.inner.cancel.store(true, Ordering::Relaxed);
        self.inner.wake();
    }
}

/// Creates a new `Abortable` future and an `AbortHandle` which can be used to
/// stop it.
pub fn abortable<Fut: Future>(future: Fut) -> (pair: (Abortable<Fut>, AbortHandle))
    ensures
        pair.0.future == future,
        pair.0.inner == pair.1.inner,
{
    let (handle, reg) = AbortHandle::new_pair();
    (Abortable::new(future, reg), handle)
}

impl<Fut: Future> Abortable<Fut> {
    /// The states in which the future may be polled.
    pub open spec fn pollable(&self) -> bool {
        self.future.pollable()
    }

    /// Whether a poll that starts in `self` may end in `next` and return `r`.
    ///
    /// Whether the future has been aborted is not part of its state: any
    /// poll may find that it has. A poll that finds so before it polls the
    /// inner future leaves the inner future as it is; one that finds so after
    /// a pending poll of the inner future has polled it.
    pub open spec fn polls_to(&self, next: &Self, r: Poll<Result<Fut::Output, Aborted>>) -> bool {
        &&& next.inner == self.inner
        &&& match r {
            Poll::Ready(Err(_)) => next.future == self.future || self.future.polls_to(
                &next.future,
                Poll::Pending,
            ),
            Poll::Ready(Ok(out)) => self.future.polls_to(&next.future, Poll::Ready(out)),
            Poll::Pending => self.future.polls_to(&next.future, Poll::Pending),
        }
    }

    /// Completes with `Err(Aborted)` if the future has been aborted, before or
    /// after a pending poll of the inner future; otherwise polls the inner future
    /// and keeps `waker` for the abort to wake.
    pub fn poll(&mut self, waker: &Waker) -> (r: Poll<Result<Fut::Output, Aborted>>)
        requires
            old(self).pollable(),
        ensures
            old(self).polls_to(final(self), r),
            r is Pending ==> final(self).pollable(),
    {
        if self.inner.cancel.load(Ordering::Relaxed) {
            return Poll::Ready(Err(Aborted));
        }
        match self.future.poll(waker) {
            Poll::Ready(out) => {
                return Poll::Ready(Ok(out));
            },
            Poll::Pending => {},
        }
        self.inner.register(waker);
        if self.inner.cancel.load(Ordering::Relaxed) {
            return Poll::Ready(Err(Aborted));
        }
        Poll::Pending
    }

    /// As a `Future`, this polls as `pollable` and `polls_to` say.
    pub proof fn lemma_future(&self, next: &Self, r: Poll<Result<Fut::Output, Aborted>>)
        ensures
            Future::pollable(self) == self.pollable(),
            Future::polls_to(self, next, r) == self.polls_to(next, r),
    {
    }
}

impl<Fut: Future> Future for Abortable<Fut> {
    type Output = Result<Fut::Output, Aborted>;

    open spec fn pollable(&self) -> bool {
        Abortable::pollable(self)
    }

    open spec fn polls_to(&self, next: &Self, r: Poll<Result<Fut::Output, Aborted>>) -> bool {
        Abortable::polls_to(self, next, r)
    }

    fn poll(&mut self, waker: &Waker) -> (r: Poll<Result<Fut::Output, Aborted>>) {
        Abortable::poll(self, waker)
    }
}

} // verus!
