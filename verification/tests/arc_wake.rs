use futures::task::{new_count_waker, noop_waker, noop_waker_ref, waker_ref, ArcWake, WakerRef};
use std::sync::{Arc, Mutex};
use std::task::{Wake, Waker};

struct CountingWaker {
    nr_wake: Mutex<i32>,
}

impl CountingWaker {
    fn new() -> CountingWaker {
        CountingWaker { nr_wake: Mutex::new(0) }
    }

    pub fn wakes(&self) -> i32 {
        *self.nr_wake.lock().unwrap()
    }
}

impl ArcWake for CountingWaker {
    fn wake(arc_self: &Arc<Self>) {
        let mut lock = arc_self.nr_wake.lock().unwrap();
        *lock += 1;
    }
}

impl Wake for CountingWaker {
    fn wake(self: Arc<Self>) {
        ArcWake::wake(&self);
    }

    fn wake_by_ref(self: &Arc<Self>) {
        ArcWake::wake(self);
    }
}

#[test]
fn create_waker_from_arc() {
    let some_w = Arc::new(CountingWaker::new());

    let w1: Waker = ArcWake::into_waker(some_w.clone());
    assert_eq!(2, Arc::strong_count(&some_w));
    w1.wake_by_ref();
    assert_eq!(1, some_w.wakes());

    let w2 = w1.clone();
    assert_eq!(3, Arc::strong_count(&some_w));

    w2.wake_by_ref();
    assert_eq!(2, some_w.wakes());

    drop(w2);
    assert_eq!(2, Arc::strong_count(&some_w));
    drop(w1);
    assert_eq!(1, Arc::strong_count(&some_w));
}

#[test]
fn a_consuming_wake_gives_its_reference_back() {
    let owner = Arc::new(CountingWaker::new());
    let waker = ArcWake::into_waker(owner.clone());
    let clone = waker.clone();
    assert_eq!(3, Arc::strong_count(&owner));
    clone.wake();
    assert_eq!(1, owner.wakes());
    assert_eq!(2, Arc::strong_count(&owner));
    waker.wake();
    assert_eq!(2, owner.wakes());
    assert_eq!(1, Arc::strong_count(&owner));
}

#[test]
fn every_wake_of_a_clone_counts_once() {
    let (waker, count) = new_count_waker();
    assert_eq!(count.get(), 0);
    let clones: Vec<Waker> = (0..5).map(|_| waker.clone()).collect();
    for (i, clone) in clones.iter().enumerate() {
        clone.wake_by_ref();
        assert_eq!(count.get(), i + 1);
    }
    drop(clones);
    waker.wake_by_ref();
    waker.wake_by_ref();
    assert_eq!(count.get(), 7);
}

#[test]
fn waker_ref_wakes_its_owner() {
    let owner = Arc::new(CountingWaker::new());
    {
        let borrowed: WakerRef<'_> = waker_ref(&owner);
        borrowed.as_waker().wake_by_ref();
        assert_eq!(2, Arc::strong_count(&owner));
    }
    assert_eq!(1, owner.wakes());
    assert_eq!(1, Arc::strong_count(&owner));
}

#[test]
fn noop_wakers_do_nothing() {
    let waker = noop_waker();
    waker.wake_by_ref();
    waker.clone().wake();
    noop_waker_ref().wake_by_ref();
}
