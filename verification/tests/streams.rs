use futures::future::{ready, FusedFuture, Future, PendingOnce, Ready};
use futures::stream::{
    empty, iter, poll_fn, repeat, BufferUnordered, Collect, Filter, Flatten, ForEach,
    ForEachConcurrent, Fuse, FusedStream, Inspect, Iter, Peekable, Select, Stream, StreamFuture,
    Then,
};
use futures::task::{new_count_waker, noop_waker, Poll, YIELD_EVERY};
use std::cell::RefCell;
use std::rc::Rc;
use std::task::Waker;

/// A stream that yields the items of a script: `None` stands for `Pending`.
/// After the script it reports its end.
struct Script<T> {
    steps: std::vec::IntoIter<Option<T>>,
}

fn script<T>(steps: Vec<Option<T>>) -> Script<T> {
    Script { steps: steps.into_iter() }
}

impl<T> Stream for Script<T> {
    type Item = T;

    fn poll_next(&mut self, waker: &Waker) -> Poll<Option<T>> {
        match self.steps.next() {
            Some(Some(item)) => Poll::Ready(Some(item)),
            Some(None) => {
                waker.wake_by_ref();
                Poll::Pending
            }
            None => Poll::Ready(None),
        }
    }
}

fn drain<St: Stream>(stream: &mut St) -> Vec<St::Item> {
    let (waker, count) = new_count_waker();
    let mut items = Vec::new();
    loop {
        let woken_before = count.get();
        match stream.poll_next(&waker) {
            Poll::Ready(Some(item)) => items.push(item),
            Poll::Ready(None) => return items,
            Poll::Pending => assert!(count.get() > woken_before, "nothing woke the task"),
        }
    }
}

fn block_on<Fut: Future>(mut future: Fut) -> Fut::Output {
    let (waker, count) = new_count_waker();
    loop {
        let woken_before = count.get();
        match future.poll(&waker) {
            Poll::Ready(out) => return out,
            Poll::Pending => assert!(count.get() > woken_before, "nothing woke the task"),
        }
    }
}

#[test]
fn empty_and_repeat_and_iter() {
    let waker = noop_waker();
    let mut none = empty::<u8>();
    assert_eq!(none.poll_next(&waker), Poll::Ready(None));
    assert_eq!(none.poll_next(&waker), Poll::Ready(None));
    assert!(none.is_terminated());

    let mut sevens = repeat(7u8);
    for _ in 0..3 {
        assert_eq!(sevens.poll_next(&waker), Poll::Ready(Some(7)));
    }

    let mut numbers: Iter<_> = iter(vec![1, 2, 3].into_iter());
    assert_eq!(numbers.poll_next(&waker), Poll::Ready(Some(1)));
    assert_eq!(drain(&mut numbers), vec![2, 3]);
    assert_eq!(numbers.poll_next(&waker), Poll::Ready(None));
}

#[test]
fn poll_fn_is_one_call_per_poll() {
    let mut calls = 0;
    let mut stream = poll_fn(move |_: &Waker| {
        calls += 1;
        if calls < 3 {
            Poll::Ready(Some(calls))
        } else {
            Poll::Ready(None)
        }
    });
    assert_eq!(drain(&mut stream), vec![1, 2]);
}

#[test]
fn fuse_goes_on_to_report_the_end() {
    let waker = noop_waker();
    let polls = Rc::new(RefCell::new(0));
    let seen = polls.clone();
    // This stream would resume after its end if it were polled again.
    let inner = poll_fn(move |_: &Waker| {
        *seen.borrow_mut() += 1;
        match *seen.borrow() {
            1 => Poll::Ready(Some('a')),
            2 => Poll::Ready(None),
            _ => Poll::Ready(Some('z')),
        }
    });
    let mut fused = Fuse::new(inner);
    assert!(!fused.is_done());
    assert!(!fused.is_terminated());
    assert_eq!(fused.poll_next(&waker), Poll::Ready(Some('a')));
    assert!(!fused.is_done());
    assert_eq!(fused.poll_next(&waker), Poll::Ready(None));
    assert!(fused.is_done());
    assert!(fused.is_terminated());
    for _ in 0..3 {
        assert_eq!(fused.poll_next(&waker), Poll::Ready(None));
        assert!(fused.is_terminated());
    }
    assert_eq!(*polls.borrow(), 2);
    let _ = fused.get_ref();
    let _ = fused.get_mut();
    let _ = fused.into_inner();
}

#[test]
fn inspect_sees_every_item() {
    let mut seen = Vec::new();
    let mut stream = Inspect::new(script(vec![Some(1), None, Some(2)]), |item: &i32| seen.push(*item));
    assert_eq!(drain(&mut stream), vec![1, 2]);
    drop(stream);
    assert_eq!(seen, vec![1, 2]);
}

#[test]
fn stream_future_resolves_to_the_next_item_and_the_stream() {
    let waker = noop_waker();
    let mut next = StreamFuture::new(script(vec![None, Some(5), Some(6)]));
    assert!(!next.is_terminated());
    assert!(next.get_ref().is_some());
    assert!(matches!(next.poll(&waker), Poll::Pending));
    assert!(!next.is_terminated());
    match next.poll(&waker) {
        Poll::Ready((item, mut rest)) => {
            assert_eq!(item, Some(5));
            assert_eq!(drain(&mut rest), vec![6]);
        }
        Poll::Pending => panic!("the item was ready"),
    }
    assert!(next.is_terminated());
    assert!(next.get_ref().is_none());
    assert!(next.get_mut().is_none());
    assert!(next.into_inner().is_none());
}

#[test]
fn peek_keeps_the_item_for_the_next_poll() {
    let waker = noop_waker();
    let mut stream = Peekable::new(script(vec![Some(1), None, Some(2)]));
    assert_eq!(stream.peek(&waker), Poll::Ready(Some(&1)));
    assert_eq!(stream.peek(&waker), Poll::Ready(Some(&1)));
    assert_eq!(stream.poll_next(&waker), Poll::Ready(Some(1)));
    assert_eq!(stream.peek(&waker), Poll::Pending);
    assert_eq!(stream.peek(&waker), Poll::Ready(Some(&2)));
    assert!(!stream.is_terminated());
    assert_eq!(stream.poll_next(&waker), Poll::Ready(Some(2)));
    assert_eq!(stream.peek(&waker), Poll::Ready(None));
    assert!(stream.is_terminated());
    assert_eq!(stream.poll_next(&waker), Poll::Ready(None));
    assert_eq!(stream.poll_next(&waker), Poll::Ready(None));
}

#[test]
fn then_runs_one_future_per_item() {
    let mut stream = Then::new(script(vec![Some(1), None, Some(2), Some(3)]), |item: i32| {
        PendingOnce::new(ready(item * 10))
    });
    assert_eq!(drain(&mut stream), vec![10, 20, 30]);
    assert_eq!(stream.poll_next(&noop_waker()), Poll::Ready(None));
}

#[test]
fn filter_keeps_what_the_predicate_accepts() {
    let mut evens = Filter::new(iter((1..=10).into_iter()), |item: &i32| {
        PendingOnce::new(ready(item % 2 == 0))
    });
    assert_eq!(drain(&mut evens), vec![2, 4, 6, 8, 10]);
    let _ = evens.get_ref();
    let _ = evens.get_mut();
    let _ = evens.into_inner();
}

#[test]
fn filter_yields_after_its_budget_of_rejected_items() {
    let mut none = Filter::new(repeat(1u8), |_: &u8| ready(false));
    let (waker, count) = new_count_waker();
    assert_eq!(none.poll_next(&waker), Poll::Pending);
    assert_eq!(count.get(), 1);
    assert_eq!(none.poll_next(&waker), Poll::Pending);
    assert_eq!(count.get(), 2);

    let mut late = Filter::new(iter((0..YIELD_EVERY + 1).into_iter()), |item: &usize| {
        ready(*item == YIELD_EVERY)
    });
    assert_eq!(late.poll_next(&waker), Poll::Pending);
    assert_eq!(late.poll_next(&waker), Poll::Ready(Some(YIELD_EVERY)));
}

#[test]
fn flatten_drains_the_inner_streams_in_turn() {
    let inner = vec![
        script(vec![Some(1), None, Some(2)]),
        script(vec![]),
        script(vec![None, Some(3)]),
    ];
    let mut flat = Flatten::new(iter(inner.into_iter()));
    assert_eq!(drain(&mut flat), vec![1, 2, 3]);
    assert_eq!(flat.poll_next(&noop_waker()), Poll::Ready(None));
    let _ = flat.get_ref();
    let _ = flat.get_mut();
    let _ = flat.into_inner();
}

#[test]
fn for_each_runs_the_futures_one_after_the_other() {
    let log = Rc::new(RefCell::new(Vec::new()));
    let sink = log.clone();
    let for_each = ForEach::new(script(vec![Some(1), None, Some(2), Some(3)]), move |item: i32| {
        sink.borrow_mut().push(item);
        PendingOnce::new(ready(()))
    });
    block_on(for_each);
    assert_eq!(*log.borrow(), vec![1, 2, 3]);
}

#[test]
fn for_each_is_terminated_after_ready() {
    let waker = noop_waker();
    let mut for_each = ForEach::new(Fuse::new(script(vec![Some(1)])), |_: i32| ready(()));
    assert!(!for_each.is_terminated());
    assert_eq!(for_each.poll(&waker), Poll::Ready(()));
    assert!(for_each.is_terminated());
}

#[test]
fn for_each_concurrent_respects_its_limit() {
    /// What the jobs share: how many are running now, how many were running
    /// at most, and the wakers of the jobs that wait to be let go.
    struct Floor {
        running: usize,
        most: usize,
        open: bool,
        waiting: Vec<Waker>,
    }
    struct Job {
        floor: Rc<RefCell<Floor>>,
    }
    impl Future for Job {
        type Output = ();
        fn poll(&mut self, waker: &Waker) -> Poll<()> {
            let mut floor = self.floor.borrow_mut();
            if floor.open {
                floor.running -= 1;
                Poll::Ready(())
            } else {
                floor.waiting.push(waker.clone());
                Poll::Pending
            }
        }
    }
    for limit in [None, Some(0), Some(1), Some(3)] {
        let floor = Rc::new(RefCell::new(Floor { running: 0, most: 0, open: false, waiting: Vec::new() }));
        let started = Rc::new(RefCell::new(0));
        let (f, s) = (floor.clone(), started.clone());
        let mut for_each = ForEachConcurrent::new(iter((0..10u32).into_iter()), limit, move |_: u32| {
            *s.borrow_mut() += 1;
            let mut now = f.borrow_mut();
            now.running += 1;
            now.most = now.most.max(now.running);
            Job { floor: f.clone() }
        });
        let waker = noop_waker();
        assert!(!for_each.is_terminated());
        assert_eq!(for_each.poll(&waker), Poll::Pending);
        let expected = match limit {
            Some(n) if n > 0 => n,
            _ => 10,
        };
        assert_eq!(*started.borrow(), expected);
        assert_eq!(floor.borrow().running, expected);
        // Nothing has changed: another poll starts nothing and polls nothing.
        assert_eq!(for_each.poll(&waker), Poll::Pending);
        assert_eq!(*started.borrow(), expected);
        let waiting = {
            let mut floor = floor.borrow_mut();
            floor.open = true;
            std::mem::take(&mut floor.waiting)
        };
        for waker in waiting {
            waker.wake();
        }
        block_on_ref(&mut for_each);
        assert!(for_each.is_terminated());
        assert_eq!(*started.borrow(), 10);
        assert_eq!(floor.borrow().running, 0);
        assert_eq!(floor.borrow().most, expected);
    }
}

fn block_on_ref<Fut: Future>(future: &mut Fut) -> Fut::Output {
    let (waker, count) = new_count_waker();
    loop {
        let woken_before = count.get();
        match future.poll(&waker) {
            Poll::Ready(out) => return out,
            Poll::Pending => assert!(count.get() > woken_before, "nothing woke the task"),
        }
    }
}

#[test]
fn collect_gathers_every_item() {
    let collect = Collect::new(script(vec![Some('a'), None, Some('b'), Some('c')]));
    assert_eq!(block_on(collect), vec!['a', 'b', 'c']);
    let mut many = Collect::new(iter((0..100).into_iter()));
    let waker = noop_waker();
    // A hundred items are more than one poll works through.
    assert_eq!(many.poll(&waker), Poll::Pending);
    assert_eq!(block_on_ref(&mut many), (0..100).collect::<Vec<_>>());
    assert_eq!(many.finish(), Vec::<i32>::new());
}

#[test]
fn select_takes_turns() {
    let mut both = Select::new(iter(vec![1, 2, 3].into_iter()), iter(vec![10, 20].into_iter()));
    assert!(!both.is_terminated());
    assert_eq!(drain(&mut both), vec![1, 10, 2, 20, 3]);
    assert!(both.is_terminated());
    assert_eq!(both.poll_next(&noop_waker()), Poll::Ready(None));
}

#[test]
fn select_yields_what_is_ready() {
    let waker = noop_waker();
    let mut both = Select::new(script(vec![None, Some(1)]), script(vec![Some(10), None, None]));
    assert_eq!(both.poll_next(&waker), Poll::Ready(Some(10)));
    assert_eq!(both.poll_next(&waker), Poll::Ready(Some(1)));
    assert_eq!(both.poll_next(&waker), Poll::Pending);
    // The first stream has ended, the second is pending.
    assert_eq!(both.poll_next(&waker), Poll::Pending);
    assert_eq!(both.poll_next(&waker), Poll::Ready(None));
}

#[test]
fn buffer_unordered_runs_up_to_max_futures() {
    let started = Rc::new(RefCell::new(0));
    let s = started.clone();
    let futures = Then::new(iter((0..6u32).into_iter()), move |item: u32| {
        *s.borrow_mut() += 1;
        ready(PendingOnce::new(ready(item)))
    });
    let mut buffered = BufferUnordered::new(futures, 2);
    let waker = noop_waker();
    assert!(!buffered.is_terminated());
    assert_eq!(buffered.poll_next(&waker), Poll::Ready(Some(0)));
    assert_eq!(*started.borrow(), 2);
    let mut rest = drain(&mut buffered);
    rest.sort();
    assert_eq!(rest, vec![1, 2, 3, 4, 5]);
    assert_eq!(*started.borrow(), 6);
    assert!(buffered.is_terminated());
    assert_eq!(buffered.poll_next(&waker), Poll::Ready(None));
    let _ = buffered.get_ref();
    let _ = buffered.get_mut();
    let _: Then<_, Ready<PendingOnce<Ready<u32>>>, _> = buffered.into_inner();
}
