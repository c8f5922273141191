use futures::future::{ready, Future, PendingOnce};
use futures::stream::{futures_ordered, FusedStream, FuturesOrdered, Stream};
use futures::task::{new_count_waker, noop_waker, Poll};
use std::sync::{Arc, Mutex};
use std::task::Waker;

/// A future that is ready once its latch has been opened, and asks to be
/// woken when that happens.
struct Held {
    latch: Arc<Mutex<Latch>>,
    value: u32,
}

struct Latch {
    open: bool,
    waker: Option<Waker>,
}

fn latch() -> Arc<Mutex<Latch>> {
    Arc::new(Mutex::new(Latch { open: false, waker: None }))
}

fn open(latch: &Arc<Mutex<Latch>>) {
    let waker = {
        let mut latch = latch.lock().unwrap();
        latch.open = true;
        latch.waker.take()
    };
    if let Some(waker) = waker {
        waker.wake();
    }
}

impl Future for Held {
    type Output = u32;

    fn poll(&mut self, waker: &Waker) -> Poll<u32> {
        let mut latch = self.latch.lock().unwrap();
        if latch.open {
            Poll::Ready(self.value)
        } else {
            latch.waker = Some(waker.clone());
            Poll::Pending
        }
    }
}

/// A future that is pending `left` times, waking itself each time.
struct Delayed {
    left: u32,
    value: u32,
}

impl Future for Delayed {
    type Output = u32;

    fn poll(&mut self, waker: &Waker) -> Poll<u32> {
        if self.left == 0 {
            Poll::Ready(self.value)
        } else {
            self.left -= 1;
            waker.wake_by_ref();
            Poll::Pending
        }
    }
}

fn drain<St: Stream>(stream: &mut St) -> Vec<St::Item> {
    let (waker, count) = new_count_waker();
    let mut items = Vec::new();
    loop {
        let woken_before = count.get();
        match stream.poll_next(&waker) {
            Poll::Ready(Some(item)) => items.push(item),
            Poll::Ready(None) => return items,
            Poll::Pending => assert!(count.get() > woken_before, "nothing woke the task"),
        }
    }
}

#[test]
fn outputs_come_in_push_order_whatever_the_order_of_completion() {
    let latches = [latch(), latch(), latch()];
    let mut queue = FuturesOrdered::new();
    for (value, latch) in latches.iter().enumerate() {
        queue.push(Held { latch: latch.clone(), value: value as u32 });
    }
    let waker = noop_waker();
    assert_eq!(queue.len(), 3);
    assert_eq!(queue.poll_next(&waker), Poll::Pending);

    // The futures complete in the order 1, 0, 2.
    open(&latches[1]);
    assert_eq!(queue.poll_next(&waker), Poll::Pending);
    assert_eq!(queue.len(), 3);
    open(&latches[0]);
    assert_eq!(queue.poll_next(&waker), Poll::Ready(Some(0)));
    assert_eq!(queue.poll_next(&waker), Poll::Ready(Some(1)));
    assert_eq!(queue.len(), 1);
    assert_eq!(queue.poll_next(&waker), Poll::Pending);
    open(&latches[2]);
    assert_eq!(queue.poll_next(&waker), Poll::Ready(Some(2)));
    assert!(queue.is_empty());
    assert_eq!(queue.poll_next(&waker), Poll::Ready(None));
    assert_eq!(queue.poll_next(&waker), Poll::Ready(None));
}

#[test]
fn delays_do_not_change_the_order() {
    let delays = [5, 0, 3, 1, 4, 0, 2];
    let futures: Vec<Delayed> = delays
        .iter()
        .enumerate()
        .map(|(i, &left)| Delayed { left, value: i as u32 })
        .collect();
    let mut queue = futures_ordered(futures);
    assert_eq!(queue.len(), delays.len());
    assert_eq!(drain(&mut queue), vec![0, 1, 2, 3, 4, 5, 6]);
    assert_eq!(queue.len(), 0);
}

#[test]
fn a_staged_output_is_handed_out_without_a_poll_of_the_registry() {
    let latches = [latch(), latch()];
    let mut queue = FuturesOrdered::new();
    queue.push(Held { latch: latches[0].clone(), value: 10 });
    queue.push(Held { latch: latches[1].clone(), value: 11 });
    let (waker, count) = new_count_waker();
    open(&latches[1]);
    assert_eq!(queue.poll_next(&waker), Poll::Pending);
    // The second output is staged now: it counts, though its future is gone.
    assert_eq!(queue.len(), 2);
    open(&latches[0]);
    assert_eq!(count.get(), 1);
    assert_eq!(queue.poll_next(&waker), Poll::Ready(Some(10)));
    assert_eq!(queue.len(), 1);
    assert_eq!(queue.poll_next(&waker), Poll::Ready(Some(11)));
    assert_eq!(queue.len(), 0);
}

#[test]
fn an_empty_queue_is_done_and_can_be_used_again() {
    let mut queue: FuturesOrdered<PendingOnce<futures::future::Ready<u8>>> = FuturesOrdered::new();
    let waker = noop_waker();
    assert!(queue.is_empty());
    assert!(!queue.is_terminated());
    assert_eq!(queue.poll_next(&waker), Poll::Ready(None));
    assert!(queue.is_terminated());
    queue.push(PendingOnce::new(ready(1)));
    queue.push(PendingOnce::new(ready(2)));
    assert!(!queue.is_terminated());
    assert!(!queue.is_empty());
    assert_eq!(queue.poll_next(&waker), Poll::Ready(Some(1)));
    assert_eq!(queue.poll_next(&waker), Poll::Ready(Some(2)));
    assert_eq!(queue.poll_next(&waker), Poll::Ready(None));
    let mut fresh: FuturesOrdered<futures::future::Ready<u8>> = Default::default();
    assert_eq!(fresh.len(), 0);
    assert_eq!(fresh.poll_next(&waker), Poll::Ready(None));
}
