use futures::future::{ready, Chain, Fuse, FusedFuture, Future, PendingOnce, Ready, Then};
use std::sync::Arc;
use std::task::Wake;
use futures::task::{noop_waker, Poll};
use futures::try_future::{TryChain, TryChainAction};
use std::task::Waker;

/// A future that is pending `left` times and then ready with `value`.
struct Countdown<T> {
    left: u32,
    value: Option<T>,
}

fn countdown<T>(left: u32, value: T) -> Countdown<T> {
    Countdown { left, value: Some(value) }
}

impl<T> Future for Countdown<T> {
    type Output = T;

    fn poll(&mut self, _waker: &Waker) -> Poll<T> {
        if self.left == 0 {
            Poll::Ready(self.value.take().expect("polled after it was ready"))
        } else {
            self.left -= 1;
            Poll::Pending
        }
    }
}

/// The number of pending polls before the future is ready, and its output.
fn run<Fut: Future>(mut future: Fut) -> (u32, Fut::Output) {
    let waker = noop_waker();
    let mut pending = 0;
    loop {
        match future.poll(&waker) {
            Poll::Pending => pending += 1,
            Poll::Ready(out) => return (pending, out),
        }
    }
}

#[test]
fn then_takes_as_many_polls_as_its_stages_together() {
    for k in 0..5 {
        for m in 0..5 {
            let then = Then::new(countdown(k, 7), move |v: i32| countdown(m, v * 2));
            assert_eq!(run(then), (k + m, 14));
        }
    }
}

#[test]
fn then_is_terminated_after_ready_and_not_before() {
    let waker = noop_waker();
    let mut then = Then::new(countdown(1, 1), |v: i32| countdown(1, v + 1));
    assert!(!then.is_terminated());
    assert_eq!(then.poll(&waker), Poll::Pending);
    assert!(!then.is_terminated());
    assert_eq!(then.poll(&waker), Poll::Pending);
    assert!(!then.is_terminated());
    assert_eq!(then.poll(&waker), Poll::Ready(2));
    assert!(then.is_terminated());
    assert!(then.is_terminated());
}

#[test]
fn chain_runs_first_then_second() {
    let waker = noop_waker();
    let mut chain: Chain<Countdown<i32>, Ready<String>, &str> = Chain::new(countdown(2, 40), "!");
    let f = |v: i32, suffix: &str| ready(format!("{}{}", v + 2, suffix));
    assert!(matches!(chain.poll(&waker, f), Poll::Pending));
    assert!(matches!(chain, Chain::First(_, Some("!"))));
    assert!(matches!(chain.poll(&waker, f), Poll::Pending));
    assert!(!chain.is_terminated());
    assert_eq!(chain.poll(&waker, f), Poll::Ready("42!".to_string()));
    assert!(matches!(chain, Chain::Empty));
    assert!(chain.is_terminated());
}

#[test]
fn chain_keeps_a_pending_second_future() {
    let waker = noop_waker();
    let mut chain: Chain<Ready<i32>, Countdown<i32>, ()> = Chain::new(ready(1), ());
    let f = |v: i32, _: ()| countdown(1, v + 1);
    // The first future is ready at once; the second is built and polled in
    // the same poll, and its `Pending` ends that poll.
    assert_eq!(chain.poll(&waker, f), Poll::Pending);
    assert!(matches!(chain, Chain::Second(_)));
    assert_eq!(chain.poll(&waker, f), Poll::Ready(2));
    assert!(matches!(chain, Chain::Empty));
}

#[test]
fn try_chain_runs_the_second_future_on_success() {
    let waker = noop_waker();
    let mut chain: TryChain<Countdown<Result<i32, String>>, Countdown<Result<i32, String>>, i32> =
        TryChain::new(countdown(1, Ok(5)), 10);
    let f = |r: Result<i32, String>, add: i32| match r {
        Ok(v) => TryChainAction::Future(countdown(1, Ok(v + add))),
        Err(e) => TryChainAction::Output(Err(e)),
    };
    assert!(!chain.is_terminated());
    assert_eq!(chain.poll(&waker, f), Poll::Pending);
    assert!(matches!(chain, TryChain::First(..)));
    assert_eq!(chain.poll(&waker, f), Poll::Pending);
    assert!(matches!(chain, TryChain::Second(_)));
    assert!(!chain.is_terminated());
    assert_eq!(chain.poll(&waker, f), Poll::Ready(Ok(15)));
    assert!(chain.is_terminated());
}

#[test]
fn try_chain_short_circuits_without_a_second_future() {
    let waker = noop_waker();
    let mut built = 0;
    let mut chain: TryChain<Countdown<Result<i32, String>>, Countdown<Result<i32, String>>, ()> =
        TryChain::new(countdown(2, Err("boom".to_string())), ());
    for expected_pending in [true, true, false] {
        let r = chain.poll(&waker, |r: Result<i32, String>, _: ()| match r {
            Ok(v) => {
                built += 1;
                TryChainAction::Future(countdown(3, Ok(v)))
            }
            Err(e) => TryChainAction::Output(Err(e)),
        });
        if expected_pending {
            assert_eq!(r, Poll::Pending);
        } else {
            assert_eq!(r, Poll::Ready(Err("boom".to_string())));
        }
    }
    assert_eq!(built, 0);
    assert!(chain.is_terminated());
    assert!(matches!(chain, TryChain::Empty));
}

struct PanicOnWake;

impl Wake for PanicOnWake {
    fn wake(self: Arc<Self>) {
        panic!("should not be woken");
    }
}

fn panic_waker() -> Waker {
    Waker::from(Arc::new(PanicOnWake))
}

#[test]
fn fuse() {
    let mut future = Fuse::new(ready::<i32>(2));
    let lw = &mut panic_waker();
    assert!(future.poll(lw).is_ready());
    assert!(future.poll(lw).is_pending());
}

#[test]
fn fuse_is_terminated_once_it_has_been_ready() {
    let waker = noop_waker();
    let mut future = Fuse::new(countdown(2, 'x'));
    for _ in 0..2 {
        assert!(!future.is_terminated());
        assert_eq!(future.poll(&waker), Poll::Pending);
    }
    assert!(!future.is_terminated());
    assert_eq!(future.poll(&waker), Poll::Ready('x'));
    for _ in 0..3 {
        assert!(future.is_terminated());
        assert_eq!(future.poll(&waker), Poll::Pending);
    }
}

#[test]
fn pending_once_adds_one_pending_poll() {
    assert_eq!(run(ready(3)), (0, 3));
    assert_eq!(run(PendingOnce::new(ready(3))), (1, 3));
    assert_eq!(run(PendingOnce::new(countdown(2, 3))), (3, 3));
    assert_eq!(run(futures::async_await::pending_once()), (1, ()));
}

#[test]
fn pending_once_wakes_before_it_returns_pending() {
    let (waker, count) = futures::task::new_count_waker();
    let mut once = PendingOnce::new(ready(1));
    assert_eq!(once.poll(&waker), Poll::Pending);
    assert_eq!(count.get(), 1);
    assert_eq!(once.poll(&waker), Poll::Ready(1));
    assert_eq!(count.get(), 1);
}
