use futures::future::{empty, ready, Future, PendingOnce};
use futures::stream::{futures_unordered, FuturesUnordered, Stream};
use futures::task::{new_count_waker, noop_waker, Poll};
use std::sync::{Arc, Mutex};
use std::task::Waker;

#[derive(Debug, PartialEq)]
struct Canceled;

struct Shared<T> {
    value: Option<T>,
    waker: Option<Waker>,
    receiver_closed: bool,
    sender_gone: bool,
}

struct Sender<T> {
    shared: Arc<Mutex<Shared<T>>>,
}

struct Receiver<T> {
    shared: Arc<Mutex<Shared<T>>>,
}

fn channel<T>() -> (Sender<T>, Receiver<T>) {
    let shared = Arc::new(Mutex::new(Shared {
        value: None,
        waker: None,
        receiver_closed: false,
        sender_gone: false,
    }));
    (Sender { shared: shared.clone() }, Receiver { shared })
}

impl<T> Sender<T> {
    fn send(self, value: T) -> Result<(), T> {
        let waker = {
            let mut shared = self.shared.lock().unwrap();
            if shared.receiver_closed {
                return Err(value);
            }
            shared.value = Some(value);
            shared.waker.take()
        };
        if let Some(waker) = waker {
            waker.wake();
        }
        Ok(())
    }

    fn is_canceled(&self) -> bool {
        self.shared.lock().unwrap().receiver_closed
    }
}

impl<T> Drop for Sender<T> {
    fn drop(&mut self) {
        let waker = {
            let mut shared = self.shared.lock().unwrap();
            shared.sender_gone = true;
            shared.waker.take()
        };
        if let Some(waker) = waker {
            waker.wake();
        }
    }
}

impl<T> Receiver<T> {
    fn close(&mut self) {
        self.shared.lock().unwrap().receiver_closed = true;
    }
}

impl<T> Future for Receiver<T> {
    type Output = Result<T, Canceled>;

    fn poll(&mut self, waker: &Waker) -> Poll<Result<T, Canceled>> {
        let mut shared = self.shared.lock().unwrap();
        if let Some(value) = shared.value.take() {
            return Poll::Ready(Ok(value));
        }
        if shared.sender_gone || shared.receiver_closed {
            return Poll::Ready(Err(Canceled));
        }
        shared.waker = Some(waker.clone());
        Poll::Pending
    }
}

/// Joins two receivers and adds what they receive.
struct JoinSum {
    left: Receiver<i32>,
    right: Receiver<i32>,
    left_value: Option<Result<i32, Canceled>>,
    right_value: Option<Result<i32, Canceled>>,
}

impl Future for JoinSum {
    type Output = Result<i32, Canceled>;

    fn poll(&mut self, waker: &Waker) -> Poll<Result<i32, Canceled>> {
        if self.left_value.is_none() {
            if let Poll::Ready(v) = self.left.poll(waker) {
                self.left_value = Some(v);
            }
        }
        if self.right_value.is_none() {
            if let Poll::Ready(v) = self.right.poll(waker) {
                self.right_value = Some(v);
            }
        }
        if self.left_value.is_some() && self.right_value.is_some() {
            let a = self.left_value.take().unwrap();
            let b = self.right_value.take().unwrap();
            Poll::Ready(match (a, b) {
                (Ok(a), Ok(b)) => Ok(a + b),
                _ => Err(Canceled),
            })
        } else {
            Poll::Pending
        }
    }
}

enum Either {
    Single(Receiver<i32>),
    Sum(JoinSum),
}

impl Future for Either {
    type Output = Result<i32, Canceled>;

    fn poll(&mut self, waker: &Waker) -> Poll<Result<i32, Canceled>> {
        match self {
            Either::Single(rx) => rx.poll(waker),
            Either::Sum(sum) => sum.poll(waker),
        }
    }
}

/// Records where it was when it was first polled, and checks at every later
/// poll that it is still there.
struct AssertUnmoved<Fut> {
    future: Fut,
    seen_at: Option<usize>,
}

impl<Fut: Future> Future for AssertUnmoved<Fut> {
    type Output = Fut::Output;

    fn poll(&mut self, waker: &Waker) -> Poll<Fut::Output> {
        let here = std::ptr::from_ref(&*self).addr();
        match self.seen_at {
            None => self.seen_at = Some(here),
            Some(there) => assert_eq!(there, here, "the future moved between polls"),
        }
        self.future.poll(waker)
    }
}

/// Polls the stream until it is ready, as an executor would: after a pending
/// poll it polls again only if the waker was woken.
fn next_blocking<St: Stream>(stream: &mut St) -> Option<St::Item> {
    let (waker, count) = new_count_waker();
    loop {
        let woken_before = count.get();
        match stream.poll_next(&waker) {
            Poll::Ready(item) => return item,
            Poll::Pending => {
                assert!(count.get() > woken_before, "the stream is pending and nothing woke the task");
            }
        }
    }
}

#[test]
fn works_1() {
    let (a_tx, a_rx) = channel::<i32>();
    let (b_tx, b_rx) = channel::<i32>();
    let (c_tx, c_rx) = channel::<i32>();

    let mut stream = futures_unordered(vec![a_rx, b_rx, c_rx]);

    b_tx.send(99).unwrap();
    assert_eq!(Some(Ok(99)), next_blocking(&mut stream));

    a_tx.send(33).unwrap();
    c_tx.send(33).unwrap();
    assert_eq!(Some(Ok(33)), next_blocking(&mut stream));
    assert_eq!(Some(Ok(33)), next_blocking(&mut stream));
    assert_eq!(None, next_blocking(&mut stream));
}

#[test]
fn works_2() {
    let (a_tx, a_rx) = channel::<i32>();
    let (b_tx, b_rx) = channel::<i32>();
    let (c_tx, c_rx) = channel::<i32>();

    let mut stream = futures_unordered(vec![
        Either::Single(a_rx),
        Either::Sum(JoinSum { left: b_rx, right: c_rx, left_value: None, right_value: None }),
    ]);

    a_tx.send(9).unwrap();
    b_tx.send(10).unwrap();

    let lw = &noop_waker();
    assert_eq!(stream.poll_next(lw), Poll::Ready(Some(Ok(9))));
    c_tx.send(20).unwrap();
    assert_eq!(stream.poll_next(lw), Poll::Ready(Some(Ok(30))));
    assert_eq!(stream.poll_next(lw), Poll::Ready(None));
}

#[test]
fn from_iterator() {
    let mut stream = futures_unordered(vec![ready::<i32>(1), ready::<i32>(2), ready::<i32>(3)]);
    assert_eq!(stream.len(), 3);
    let mut collected = Vec::new();
    while let Some(item) = next_blocking(&mut stream) {
        collected.push(item);
    }
    assert_eq!(collected, vec![1, 2, 3]);
}

#[test]
fn iter_mut_cancel() {
    let (a_tx, a_rx) = channel::<i32>();
    let (b_tx, b_rx) = channel::<i32>();
    let (c_tx, c_rx) = channel::<i32>();

    let mut stream = futures_unordered(vec![a_rx, b_rx, c_rx]);

    for slot in stream.slots() {
        stream.future_mut(slot).unwrap().close();
    }

    assert!(a_tx.is_canceled());
    assert!(b_tx.is_canceled());
    assert!(c_tx.is_canceled());

    assert_eq!(next_blocking(&mut stream), Some(Err(Canceled)));
    assert_eq!(next_blocking(&mut stream), Some(Err(Canceled)));
    assert_eq!(next_blocking(&mut stream), Some(Err(Canceled)));
    assert_eq!(next_blocking(&mut stream), None);
}

#[test]
fn iter_mut_len() {
    let stream = futures_unordered(vec![empty::<()>(), empty::<()>(), empty::<()>()]);

    let mut iter_mut = stream.slots().into_iter();
    assert_eq!(iter_mut.len(), 3);
    assert!(iter_mut.next().is_some());
    assert_eq!(iter_mut.len(), 2);
    assert!(iter_mut.next().is_some());
    assert_eq!(iter_mut.len(), 1);
    assert!(iter_mut.next().is_some());
    assert_eq!(iter_mut.len(), 0);
    assert!(iter_mut.next().is_none());
}

#[test]
fn futures_not_moved_after_poll() {
    // Each future is ready at its second poll, and checks that it has not
    // moved since the first.
    let make = || AssertUnmoved { future: PendingOnce::new(ready(())), seen_at: None };
    let mut stream = futures_unordered(vec![make(), make(), make()]);
    let waker = noop_waker();
    assert_eq!(stream.poll_next(&waker), Poll::Ready(Some(())));
    assert_eq!(stream.poll_next(&waker), Poll::Ready(Some(())));
    assert_eq!(stream.poll_next(&waker), Poll::Ready(Some(())));
    assert_eq!(stream.poll_next(&waker), Poll::Ready(None));
}

#[test]
fn empty_registry_is_done_at_once() {
    let mut stream: FuturesUnordered<futures::future::Ready<u8>> = FuturesUnordered::new();
    assert!(stream.is_empty());
    assert_eq!(stream.poll_next(&noop_waker()), Poll::Ready(None));
    assert_eq!(stream.poll_next(&noop_waker()), Poll::Ready(None));
}

#[test]
fn every_output_comes_out_once() {
    let mut stream = FuturesUnordered::new();
    for value in 0..100u32 {
        stream.push(PendingOnce::new(ready(value)));
    }
    assert_eq!(stream.len(), 100);
    let mut seen = vec![false; 100];
    let mut handed_out = 0;
    while let Some(value) = next_blocking(&mut stream) {
        assert!(!seen[value as usize], "an output came out twice");
        seen[value as usize] = true;
        handed_out += 1;
        assert_eq!(stream.len(), 100 - handed_out);
    }
    assert_eq!(handed_out, 100);
    assert!(seen.iter().all(|&s| s));
    assert_eq!(next_blocking(&mut stream), None);
}

#[test]
fn a_poll_yields_after_its_budget() {
    // Futures that are pending for ever are polled once each; the poll gives
    // up after `YIELD_EVERY` slots and asks to be polled again.
    let mut stream = FuturesUnordered::new();
    for _ in 0..futures::task::YIELD_EVERY + 5 {
        stream.push(empty::<()>());
    }
    let (waker, count) = new_count_waker();
    assert_eq!(stream.poll_next(&waker), Poll::Pending);
    assert_eq!(count.get(), 1);
    assert_eq!(stream.poll_next(&waker), Poll::Pending);
    assert_eq!(count.get(), 1);
}

#[test]
fn only_woken_futures_are_polled_again() {
    struct Counting {
        polls: Arc<Mutex<u32>>,
        inner: Receiver<i32>,
    }
    impl Future for Counting {
        type Output = Result<i32, Canceled>;
        fn poll(&mut self, waker: &Waker) -> Poll<Result<i32, Canceled>> {
            *self.polls.lock().unwrap() += 1;
            self.inner.poll(waker)
        }
    }
    let (a_tx, a_rx) = channel::<i32>();
    let (_b_tx, b_rx) = channel::<i32>();
    let a_polls = Arc::new(Mutex::new(0));
    let b_polls = Arc::new(Mutex::new(0));
    let mut stream = FuturesUnordered::new();
    stream.push(Counting { polls: a_polls.clone(), inner: a_rx });
    stream.push(Counting { polls: b_polls.clone(), inner: b_rx });
    let (waker, count) = new_count_waker();
    assert_eq!(stream.poll_next(&waker), Poll::Pending);
    assert_eq!((*a_polls.lock().unwrap(), *b_polls.lock().unwrap()), (1, 1));
    assert_eq!(stream.poll_next(&waker), Poll::Pending);
    assert_eq!((*a_polls.lock().unwrap(), *b_polls.lock().unwrap()), (1, 1));
    a_tx.send(7).unwrap();
    assert_eq!(count.get(), 1);
    assert_eq!(stream.poll_next(&waker), Poll::Ready(Some(Ok(7))));
    assert_eq!((*a_polls.lock().unwrap(), *b_polls.lock().unwrap()), (2, 1));
    assert_eq!(stream.len(), 1);
}

#[test]
fn fresh_futures_are_polled_in_push_order() {
    let mut stream = FuturesUnordered::new();
    for value in [3, 1, 2] {
        stream.push(ready(value));
    }
    let waker = noop_waker();
    assert_eq!(stream.poll_next(&waker), Poll::Ready(Some(3)));
    stream.push(ready(9));
    assert_eq!(stream.poll_next(&waker), Poll::Ready(Some(1)));
    assert_eq!(stream.poll_next(&waker), Poll::Ready(Some(2)));
    assert_eq!(stream.poll_next(&waker), Poll::Ready(Some(9)));
    assert_eq!(stream.poll_next(&waker), Poll::Ready(None));
}

#[test]
fn slots_are_reused_and_listed_in_rising_order() {
    let mut stream = FuturesUnordered::new();
    for _ in 0..4 {
        stream.push(empty::<()>());
    }
    assert_eq!(stream.slots(), vec![0, 1, 2, 3]);
    assert!(stream.cancel(1));
    assert!(stream.cancel(2));
    assert_eq!(stream.slots(), vec![0, 3]);
    stream.push(empty::<()>());
    assert_eq!(stream.slots().len(), 3);
    assert_eq!(stream.len(), 3);
    assert_eq!(stream.poll_next(&noop_waker()), Poll::Pending);
    assert!(!stream.cancel(17));
}

#[test]
fn cancel_drops_a_future_in_place() {
    let (a_tx, a_rx) = channel::<i32>();
    let (_b_tx, b_rx) = channel::<i32>();
    let mut stream = futures_unordered(vec![a_rx, b_rx]);
    let slots = stream.slots();
    assert_eq!(slots.len(), 2);
    assert!(stream.cancel(slots[0]));
    assert!(!stream.cancel(slots[0]));
    assert_eq!(stream.len(), 1);
    assert_eq!(a_tx.send(1), Ok(()));
    assert_eq!(stream.poll_next(&noop_waker()), Poll::Pending);
    assert!(stream.cancel(slots[1]));
    assert!(stream.is_empty());
    assert_eq!(stream.poll_next(&noop_waker()), Poll::Ready(None));
}
