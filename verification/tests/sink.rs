use futures::compat::{poll_01_to_03, poll_next_01_to_03, Async01};
use futures::future::Future;
use futures::io::cursor_write;
use futures::sink::{Buffer, Sink};
use futures::stream::{Fuse, Stream};
use futures::task::{new_count_waker, noop_waker, ArcWake, Poll};
use std::cell::{Cell, RefCell};
use std::rc::Rc;
use std::sync::atomic::{AtomicBool, Ordering};
use std::sync::Arc;
use std::task::{Wake, Waker};

/// A vector as a sink that takes every item at once.
#[derive(Debug, PartialEq)]
struct VecSink<T>(Vec<T>);

impl<T> Sink for VecSink<T> {
    type SinkItem = T;
    type SinkError = ();

    fn poll_ready(&mut self, _: &Waker) -> Poll<Result<(), ()>> {
        Poll::Ready(Ok(()))
    }

    fn start_send(&mut self, item: T) -> Result<(), ()> {
        self.0.push(item);
        Ok(())
    }

    fn poll_flush(&mut self, _: &Waker) -> Poll<Result<(), ()>> {
        Poll::Ready(Ok(()))
    }

    fn poll_close(&mut self, _: &Waker) -> Poll<Result<(), ()>> {
        Poll::Ready(Ok(()))
    }
}

/// Sends one item and flushes, and resolves to the sink.
struct Send<S: Sink> {
    sink: Option<S>,
    item: Option<S::SinkItem>,
}

fn send<S: Sink>(sink: S, item: S::SinkItem) -> Send<S> {
    Send { sink: Some(sink), item: Some(item) }
}

impl<S: Sink> Future for Send<S> {
    type Output = Result<S, S::SinkError>;

    fn poll(&mut self, waker: &Waker) -> Poll<Result<S, S::SinkError>> {
        let sink = self.sink.as_mut().unwrap();
        if self.item.is_some() {
            match sink.poll_ready(waker) {
                Poll::Pending => return Poll::Pending,
                Poll::Ready(Err(e)) => return Poll::Ready(Err(e)),
                Poll::Ready(Ok(())) => {}
            }
            if let Err(e) = sink.start_send(self.item.take().unwrap()) {
                return Poll::Ready(Err(e));
            }
        }
        match sink.poll_flush(waker) {
            Poll::Pending => Poll::Pending,
            Poll::Ready(Err(e)) => Poll::Ready(Err(e)),
            Poll::Ready(Ok(())) => Poll::Ready(Ok(self.sink.take().unwrap())),
        }
    }
}

/// Hands one item to the sink once the sink is ready, without flushing.
struct StartSendFut<S: Sink>(Option<S>, Option<S::SinkItem>);

impl<S: Sink> StartSendFut<S> {
    fn new(sink: S, item: S::SinkItem) -> StartSendFut<S> {
        StartSendFut(Some(sink), Some(item))
    }
}

impl<S: Sink> Future for StartSendFut<S> {
    type Output = Result<S, S::SinkError>;

    fn poll(&mut self, waker: &Waker) -> Poll<Result<S, S::SinkError>> {
        {
            let inner = self.0.as_mut().unwrap();
            match inner.poll_ready(waker) {
                Poll::Pending => return Poll::Pending,
                Poll::Ready(Err(e)) => return Poll::Ready(Err(e)),
                Poll::Ready(Ok(())) => {}
            }
            if let Err(e) = inner.start_send(self.1.take().unwrap()) {
                return Poll::Ready(Err(e));
            }
        }
        Poll::Ready(Ok(self.0.take().unwrap()))
    }
}

fn block_on<Fut: Future>(mut future: Fut) -> Fut::Output {
    let (waker, count) = new_count_waker();
    loop {
        let woken_before = count.get();
        match future.poll(&waker) {
            Poll::Ready(out) => return out,
            Poll::Pending => assert!(count.get() > woken_before, "nothing woke the task"),
        }
    }
}

/// A waker's owner that records that it was woken.
struct Flag(pub AtomicBool);

impl Flag {
    fn new() -> Arc<Flag> {
        Arc::new(Flag(AtomicBool::new(false)))
    }

    fn get(&self) -> bool {
        self.0.load(Ordering::SeqCst)
    }

    fn set(&self, v: bool) {
        self.0.store(v, Ordering::SeqCst)
    }
}

impl ArcWake for Flag {
    fn wake(arc_self: &Arc<Self>) {
        arc_self.set(true)
    }
}

impl Wake for Flag {
    fn wake(self: Arc<Self>) {
        ArcWake::wake(&self);
    }

    fn wake_by_ref(self: &Arc<Self>) {
        ArcWake::wake(self);
    }
}

fn flag_lw<F, R>(f: F) -> R
where
    F: FnOnce(Arc<Flag>, &Waker) -> R,
{
    let flag = Flag::new();
    let waker = ArcWake::into_waker(flag.clone());
    f(flag, &waker)
}

/// A sink that takes nothing until it is allowed to.
struct ManualAllow<T> {
    data: Vec<T>,
    allow: Rc<Allow>,
}

struct Allow {
    flag: Cell<bool>,
    tasks: RefCell<Vec<Waker>>,
}

impl Allow {
    fn new() -> Allow {
        Allow { flag: Cell::new(false), tasks: RefCell::new(Vec::new()) }
    }

    fn check(&self, waker: &Waker) -> bool {
        if self.flag.get() {
            true
        } else {
            self.tasks.borrow_mut().push(waker.clone());
            false
        }
    }

    fn start(&self) {
        self.flag.set(true);
        let mut tasks = self.tasks.borrow_mut();
        for task in tasks.drain(..) {
            task.wake();
        }
    }
}

impl<T> Sink for ManualAllow<T> {
    type SinkItem = T;
    type SinkError = ();

    fn poll_ready(&mut self, waker: &Waker) -> Poll<Result<(), ()>> {
        if self.allow.check(waker) {
            Poll::Ready(Ok(()))
        } else {
            Poll::Pending
        }
    }

    fn start_send(&mut self, item: T) -> Result<(), ()> {
        self.data.push(item);
        Ok(())
    }

    fn poll_flush(&mut self, _: &Waker) -> Poll<Result<(), ()>> {
        Poll::Ready(Ok(()))
    }

    fn poll_close(&mut self, _: &Waker) -> Poll<Result<(), ()>> {
        Poll::Ready(Ok(()))
    }
}

fn manual_allow<T>() -> (ManualAllow<T>, Rc<Allow>) {
    let allow = Rc::new(Allow::new());
    let manual_allow = ManualAllow { data: Vec::new(), allow: allow.clone() };
    (manual_allow, allow)
}

// A buffer is a no-op around a sink that always accepts sends.
#[test]
fn buffer_noop() {
    let sink = Buffer::new(VecSink(Vec::new()), 0);
    let sink = block_on(send(sink, 0)).unwrap();
    let sink = block_on(send(sink, 1)).unwrap();
    assert_eq!(sink.get_ref(), &VecSink(vec![0, 1]));

    let sink = Buffer::new(VecSink(Vec::new()), 1);
    let sink = block_on(send(sink, 0)).unwrap();
    let sink = block_on(send(sink, 1)).unwrap();
    assert_eq!(sink.get_ref(), &VecSink(vec![0, 1]));
}

// Basic buffer functionality: filling up to capacity, and writing out when
// the underlying sink is ready.
#[test]
fn buffer() {
    let (sink, allow) = manual_allow::<i32>();
    let sink = Buffer::new(sink, 2);

    let sink = block_on(StartSendFut::new(sink, 0)).unwrap();
    let sink = block_on(StartSendFut::new(sink, 1)).unwrap();

    flag_lw(|flag, waker| {
        let mut task = send(sink, 2);
        assert!(task.poll(waker).is_pending());
        assert!(!flag.get());
        allow.start();
        assert!(flag.get());
        match task.poll(waker) {
            Poll::Ready(Ok(sink)) => {
                assert_eq!(sink.get_ref().data, vec![0, 1, 2]);
            }
            _ => panic!(),
        }
    })
}

/// A sink that takes an item only while it has an allowance, and fails on a
/// chosen item.
struct Turnstile {
    taken: Vec<i32>,
    allowance: usize,
    flushed: bool,
    closed: bool,
    poison: Option<i32>,
}

fn keeper(allowance: usize) -> Turnstile {
    Turnstile { taken: Vec::new(), allowance, flushed: false, closed: false, poison: None }
}

impl Sink for Turnstile {
    type SinkItem = i32;
    type SinkError = String;

    fn poll_ready(&mut self, _: &Waker) -> Poll<Result<(), String>> {
        if self.allowance > 0 {
            Poll::Ready(Ok(()))
        } else {
            Poll::Pending
        }
    }

    fn start_send(&mut self, item: i32) -> Result<(), String> {
        if self.poison == Some(item) {
            return Err(format!("cannot take {}", item));
        }
        assert!(self.allowance > 0, "an item was sent to a sink that was not ready");
        self.allowance -= 1;
        self.taken.push(item);
        Ok(())
    }

    fn poll_flush(&mut self, _: &Waker) -> Poll<Result<(), String>> {
        self.flushed = true;
        Poll::Ready(Ok(()))
    }

    fn poll_close(&mut self, _: &Waker) -> Poll<Result<(), String>> {
        self.closed = true;
        Poll::Ready(Ok(()))
    }
}

impl Stream for Turnstile {
    type Item = i32;

    fn poll_next(&mut self, _: &Waker) -> Poll<Option<i32>> {
        Poll::Ready(self.taken.pop())
    }
}

#[test]
fn buffer_holds_what_the_sink_cannot_take() {
    let waker = noop_waker();
    let mut buffer = Buffer::new(keeper(0), 2);
    assert_eq!(buffer.poll_ready(&waker), Poll::Ready(Ok(())));
    assert_eq!(buffer.start_send(1), Ok(()));
    assert_eq!(buffer.poll_ready(&waker), Poll::Ready(Ok(())));
    assert_eq!(buffer.start_send(2), Ok(()));
    // The buffer is full and the sink takes nothing.
    assert_eq!(buffer.poll_ready(&waker), Poll::Pending);
    assert_eq!(buffer.get_ref().taken, Vec::<i32>::new());
    assert_eq!(buffer.poll_flush(&waker), Poll::Pending);
    assert!(!buffer.get_ref().flushed);

    buffer.sink.allowance = 1;
    assert_eq!(buffer.poll_ready(&waker), Poll::Ready(Ok(())));
    assert_eq!(buffer.get_ref().taken, vec![1]);
    assert_eq!(buffer.buf.len(), 1);

    buffer.sink.allowance = 5;
    assert_eq!(buffer.poll_flush(&waker), Poll::Ready(Ok(())));
    assert_eq!(buffer.get_ref().taken, vec![1, 2]);
    assert!(buffer.get_ref().flushed);
    assert_eq!(buffer.poll_close(&waker), Poll::Ready(Ok(())));
    assert!(buffer.get_ref().closed);
}

#[test]
fn a_buffer_without_capacity_is_its_sink() {
    let waker = noop_waker();
    let mut buffer = Buffer::new(keeper(1), 0);
    assert_eq!(buffer.poll_ready(&waker), Poll::Ready(Ok(())));
    assert_eq!(buffer.start_send(7), Ok(()));
    assert_eq!(buffer.get_ref().taken, vec![7]);
    assert_eq!(buffer.poll_ready(&waker), Poll::Pending);
    assert_eq!(buffer.poll_next(&waker), Poll::Ready(Some(7)));
}

#[test]
fn buffer_reports_the_error_of_the_sink() {
    let waker = noop_waker();
    let mut sink = keeper(10);
    sink.poison = Some(2);
    let mut buffer = Buffer::new(sink, 3);
    for item in [1, 2, 3] {
        assert_eq!(buffer.start_send(item), Ok(()));
    }
    assert_eq!(buffer.try_empty_buffer(&waker), Poll::Ready(Err("cannot take 2".to_string())));
    assert_eq!(buffer.get_ref().taken, vec![1]);
    // The item that failed is lost; the next attempt goes on behind it.
    assert_eq!(buffer.poll_ready(&waker), Poll::Ready(Ok(())));
    assert_eq!(buffer.get_ref().taken, vec![1, 3]);
}

#[test]
fn a_fused_stream_is_the_sink_that_its_stream_is() {
    let waker = noop_waker();
    let mut fused = Fuse::new(keeper(1));
    assert_eq!(fused.poll_ready(&waker), Poll::Ready(Ok(())));
    assert_eq!(fused.start_send(4), Ok(()));
    assert_eq!(fused.poll_flush(&waker), Poll::Ready(Ok(())));
    assert_eq!(fused.poll_close(&waker), Poll::Ready(Ok(())));
    assert_eq!(fused.poll_next(&waker), Poll::Ready(Some(4)));
    assert_eq!(fused.poll_next(&waker), Poll::Ready(None));
    assert!(fused.is_done());
}

#[test]
fn older_results_translate() {
    assert_eq!(poll_01_to_03::<i32, String>(Ok(Async01::Ready(1))), Poll::Ready(Ok(1)));
    assert_eq!(poll_01_to_03::<i32, String>(Ok(Async01::NotReady)), Poll::Pending);
    assert_eq!(poll_01_to_03::<i32, String>(Err("e".to_string())), Poll::Ready(Err("e".to_string())));
    assert_eq!(poll_next_01_to_03::<i32, String>(Ok(Async01::Ready(Some(1)))), Poll::Ready(Some(Ok(1))));
    assert_eq!(poll_next_01_to_03::<i32, String>(Ok(Async01::Ready(None))), Poll::Ready(None));
    assert_eq!(poll_next_01_to_03::<i32, String>(Ok(Async01::NotReady)), Poll::Pending);
    assert_eq!(
        poll_next_01_to_03::<i32, String>(Err("e".to_string())),
        Poll::Ready(Some(Err("e".to_string())))
    );
}

#[test]
fn cursor_write_fills_what_is_left_of_the_buffer() {
    let mut out = vec![0u8; 5];
    assert_eq!(cursor_write(&mut out, 1, &[1, 2]), 2);
    assert_eq!(out, vec![0, 1, 2, 0, 0]);
    assert_eq!(cursor_write(&mut out, 3, &[7, 8, 9]), 2);
    assert_eq!(out, vec![0, 1, 2, 7, 8]);
    assert_eq!(cursor_write(&mut out, 5, &[1]), 0);
    assert_eq!(cursor_write(&mut out, u64::MAX, &[1]), 0);
    assert_eq!(cursor_write(&mut out, 0, &[]), 0);
    assert_eq!(out, vec![0, 1, 2, 7, 8]);
}
