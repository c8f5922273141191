use futures::future::{
    abortable, empty, ready, AbortHandle, Abortable, Aborted, FusedFuture, Future, Inspect,
    PendingOnce, Ready, UnitError,
};
use futures::io::Initializer;
use futures::stream::{iter, Stream};
use futures::task::{new_count_waker, noop_waker, Poll};
use futures::try_future::{try_join_all, IntoFuture, MapErr, MapOk};
use futures::try_stream::{IntoStream, TryFold, TrySkipWhile, TryStreamExt};
use std::task::Waker;

/// A future that is pending `left` times, waking itself each time, and then
/// ready with `value`.
struct Delayed<T> {
    left: u32,
    value: Option<T>,
}

fn delayed<T>(left: u32, value: T) -> Delayed<T> {
    Delayed { left, value: Some(value) }
}

impl<T> Future for Delayed<T> {
    type Output = T;

    fn poll(&mut self, waker: &Waker) -> Poll<T> {
        if self.left == 0 {
            Poll::Ready(self.value.take().expect("polled after it was ready"))
        } else {
            self.left -= 1;
            waker.wake_by_ref();
            Poll::Pending
        }
    }
}

fn block_on<Fut: Future>(mut future: Fut) -> Fut::Output {
    let (waker, count) = new_count_waker();
    loop {
        let woken_before = count.get();
        match future.poll(&waker) {
            Poll::Ready(out) => return out,
            Poll::Pending => assert!(count.get() > woken_before, "nothing woke the task"),
        }
    }
}

fn drain<St: Stream>(stream: &mut St) -> Vec<St::Item> {
    let (waker, count) = new_count_waker();
    let mut items = Vec::new();
    loop {
        let woken_before = count.get();
        match stream.poll_next(&waker) {
            Poll::Ready(Some(item)) => items.push(item),
            Poll::Ready(None) => return items,
            Poll::Pending => assert!(count.get() > woken_before, "nothing woke the task"),
        }
    }
}

fn results(items: Vec<Result<i32, String>>) -> futures::stream::Iter<std::vec::IntoIter<Result<i32, String>>> {
    iter(items.into_iter())
}

#[test]
fn map_ok_maps_the_value_and_passes_the_error() {
    let waker = noop_waker();
    let mut ok = MapOk::new(delayed(1, Ok::<i32, String>(20)), |v: i32| v + 1);
    assert!(!ok.is_terminated());
    assert_eq!(ok.poll(&waker), Poll::Pending);
    assert!(!ok.is_terminated());
    assert_eq!(ok.poll(&waker), Poll::Ready(Ok(21)));
    assert!(ok.is_terminated());

    let mut called = false;
    let err = MapOk::new(ready(Err::<i32, String>("no".to_string())), |v: i32| {
        called = true;
        v
    });
    assert_eq!(block_on(err), Err("no".to_string()));
    assert!(!called);
}

#[test]
fn map_err_maps_the_error_and_passes_the_value() {
    let waker = noop_waker();
    let mut err = MapErr::new(delayed(1, Err::<i32, i32>(4)), |e: i32| format!("error {}", e));
    assert_eq!(err.poll(&waker), Poll::Pending);
    assert!(!err.is_terminated());
    assert_eq!(err.poll(&waker), Poll::Ready(Err("error 4".to_string())));
    assert!(err.is_terminated());
    let ok = MapErr::new(ready(Ok::<i32, i32>(3)), |e: i32| e.to_string());
    assert_eq!(block_on(ok), Ok(3));
}

#[test]
fn inspect_and_unit_error_and_into_future_pass_the_output_on() {
    let mut seen = None;
    let inspect = Inspect::new(delayed(2, 9), |v: &i32| seen = Some(*v));
    assert_eq!(block_on(inspect), 9);
    assert_eq!(seen, Some(9));

    let mut unit: UnitError<Ready<i32>> = UnitError::new(ready(1));
    assert!(!unit.is_terminated());
    assert_eq!(unit.poll(&noop_waker()), Poll::Ready(Ok(1)));
    assert!(unit.is_terminated());

    let mut into = IntoFuture::new(PendingOnce::new(ready(Err::<(), u8>(2))));
    assert!(!into.is_terminated());
    assert_eq!(block_on_ref(&mut into), Err(2));
    assert!(into.is_terminated());

    let mut never = empty::<u8>();
    for _ in 0..3 {
        assert_eq!(never.poll(&noop_waker()), Poll::Pending);
        assert!(!never.is_terminated());
    }
}

fn block_on_ref<Fut: Future>(future: &mut Fut) -> Fut::Output {
    let (waker, count) = new_count_waker();
    loop {
        let woken_before = count.get();
        match future.poll(&waker) {
            Poll::Ready(out) => return out,
            Poll::Pending => assert!(count.get() > woken_before, "nothing woke the task"),
        }
    }
}

#[test]
fn try_join_all_collects_in_the_order_of_the_futures() {
    let all = try_join_all(vec![
        delayed(3, Ok::<i32, String>(1)),
        delayed(0, Ok(2)),
        delayed(1, Ok(3)),
    ]);
    assert_eq!(block_on(all), Ok(vec![1, 2, 3]));
    let none = try_join_all(Vec::<Ready<Result<i32, String>>>::new());
    assert_eq!(block_on(none), Ok(vec![]));
}

#[test]
fn try_join_all_stops_at_the_first_error() {
    let waker = noop_waker();
    let mut all = try_join_all(vec![
        delayed(5, Ok::<i32, String>(1)),
        delayed(1, Err("second".to_string())),
        delayed(0, Err("third".to_string())),
    ]);
    // The third future fails at the first poll, which reaches it because the
    // second is still pending then.
    assert_eq!(all.poll(&waker), Poll::Ready(Err("third".to_string())));
    assert_eq!(all.elems.len(), 0);

    let mut all = try_join_all(vec![
        delayed(5, Ok::<i32, String>(1)),
        delayed(1, Err("second".to_string())),
        delayed(9, Err("third".to_string())),
    ]);
    assert_eq!(all.poll(&waker), Poll::Pending);
    assert_eq!(all.poll(&waker), Poll::Ready(Err("second".to_string())));
}

#[test]
fn try_fold_folds_until_the_first_error() {
    let sum = TryFold::new(
        results(vec![Ok(1), Ok(2), Ok(3)]),
        |acc: i32, item: i32| PendingOnce::new(ready(Ok::<i32, String>(acc + item))),
        10,
    );
    assert_eq!(block_on(sum), Ok(16));

    let mut steps = 0;
    let mut stream_error = TryFold::new(
        results(vec![Ok(1), Err("bad item".to_string()), Ok(3)]),
        |acc: i32, item: i32| {
            steps += 1;
            ready(Ok::<i32, String>(acc + item))
        },
        0,
    );
    assert!(!stream_error.is_terminated());
    assert_eq!(block_on_ref(&mut stream_error), Err("bad item".to_string()));
    assert!(stream_error.is_terminated());
    drop(stream_error);
    assert_eq!(steps, 1);

    let mut step_error = results(vec![Ok(1), Ok(2)]).try_fold(0, |acc: i32, item: i32| {
        ready(if item == 2 { Err("bad step".to_string()) } else { Ok(acc + item) })
    });
    assert_eq!(block_on_ref(&mut step_error), Err("bad step".to_string()));
    assert!(step_error.is_terminated());
}

#[test]
fn try_skip_while_skips_a_prefix_only() {
    let mut stream = TrySkipWhile::new(results(vec![Ok(1), Ok(2), Ok(5), Ok(1), Ok(7)]), |item: &i32| {
        PendingOnce::new(ready(Ok::<bool, String>(*item < 3)))
    });
    assert_eq!(drain(&mut stream), vec![Ok(5), Ok(1), Ok(7)]);
    let _ = stream.get_ref();
    let _ = stream.get_mut();
    let _ = stream.into_inner();
}

#[test]
fn try_skip_while_passes_errors_on() {
    let mut stream = results(vec![Ok(1), Err("bad item".to_string()), Ok(2), Ok(9), Ok(3)])
        .try_skip_while(|item: &i32| {
            ready(if *item == 9 { Err("bad answer".to_string()) } else { Ok(*item < 3) })
        });
    assert_eq!(
        drain(&mut stream),
        vec![Err("bad item".to_string()), Err("bad answer".to_string()), Ok(3)]
    );
}

#[test]
fn into_stream_is_the_stream() {
    let mut stream: IntoStream<_> = results(vec![Ok(1), Err("e".to_string())]).into_stream();
    assert_eq!(stream.try_poll_next_unpin(&noop_waker()), Poll::Ready(Some(Ok(1))));
    assert_eq!(drain(&mut stream), vec![Err("e".to_string())]);
    let _ = stream.get_ref();
    let _ = stream.get_mut();
    let _ = stream.into_inner();
}

#[test]
fn an_aborted_future_completes_with_aborted() {
    let (abort_handle, abort_registration) = AbortHandle::new_pair();
    let future = Abortable::new(ready(2), abort_registration);
    abort_handle.abort();
    assert_eq!(block_on(future), Err(Aborted));

    let (future, _handle) = abortable(delayed(2, 5));
    assert_eq!(block_on(future), Ok(5));
}

#[test]
fn abort_wakes_the_task_that_waits() {
    let (mut future, handle) = abortable(empty::<u8>());
    let (waker, count) = new_count_waker();
    assert_eq!(future.poll(&waker), Poll::Pending);
    assert_eq!(count.get(), 0);
    let other = handle.clone();
    other.abort();
    assert_eq!(count.get(), 1);
    assert_eq!(future.poll(&waker), Poll::Ready(Err(Aborted)));
}

#[test]
fn initializer_zeroes_on_request() {
    let mut buf = vec![1u8, 2, 3];
    assert!(!Initializer::nop().should_initialize());
    Initializer::nop().initialize(&mut buf);
    assert_eq!(buf, vec![1, 2, 3]);
    assert!(Initializer::zeroing().should_initialize());
    Initializer::zeroing().initialize(&mut buf);
    assert_eq!(buf, vec![0, 0, 0]);
}
