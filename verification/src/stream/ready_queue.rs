//! The queue through which the futures of a registry ask to be polled again.

use vstd::prelude::*;
use vstd::rwlock::RwLock;
use vstd::rwlock::RwLockPredicate;
use std::collections::VecDeque;
use std::sync::atomic::AtomicBool;
use std::sync::atomic::Ordering;
use std::sync::Arc;
use std::task::Wake;
use std::task::Waker;
use crate::task::ArcWake;

verus! {

/// What the lock of a `ReadyQueue` guards.
pub(crate) struct Inbox {
    /// The slots that were woken and have not been polled since, oldest first.
    pub(crate) ready: VecDeque<usize>,
    /// The waker of the task that polled the registry last.
    pub(crate) parent: Option<Waker>,
}

/// The lock of a `ReadyQueue` accepts every inbox.
pub(crate) struct AnyInbox;

impl RwLockPredicate<Inbox> for AnyInbox {
    open spec fn inv(self, inbox: Inbox) -> bool {
        true
    }
}

/// The slots of a registry that are due for a poll.
///
/// The queue is the one part of a registry that other threads touch: a wake
/// only appends a slot number to it and passes the wake on to the task that
/// owns the registry. The wake is latched: the slot stays queued until the
/// registry takes it out, whether or not the registry is being polled.
pub(crate) struct ReadyQueue {
    lock: RwLock<Inbox, AnyInbox>,
}

impl ReadyQueue {
    /// An empty queue with no task to pass wakes on to.
    pub(crate) fn new() -> (queue: ReadyQueue) {
        let inbox = Inbox { ready: VecDeque::new(), parent: None };
        ReadyQueue { lock: RwLock::new(inbox, Ghost(AnyInbox)) }
    }

    /// Appends `slot` to the queue.
    pub(crate) fn enqueue(&self, slot: usize) {
        let (mut inbox, handle) = self.lock.acquire_write();
        inbox.ready.push_back(slot);
        handle.release_write(inbox);
    }

    /// Takes the oldest queued slot out, if there is one. Other threads may
    /// enqueue at any time, so nothing is known of what comes out.
    pub(crate) fn dequeue(&self) -> (slot: Option<usize>) {
        let (mut inbox, handle) = self.lock.acquire_write();
        let slot = inbox.ready.pop_front();
        handle.release_write(inbox);
        slot
    }

    /// Makes `waker` the waker that wakes are passed on to.
    pub(crate) fn register(&self, waker: &Waker) {
        let (mut inbox, handle) = self.lock.acquire_write();
        inbox.parent = Some(waker.clone());
        handle.release_write(inbox);
    }

    /// Wakes the task that polled the registry last, if there is one.
    pub(crate) fn wake_parent(&self) {
        let (inbox, handle) = self.lock.acquire_write();
        let parent = match &inbox.parent {
            Some(waker) => Some(waker.clone()),
            None => None,
        };
        handle.release_write(inbox);
        match parent {
            Some(waker) => waker.wake_by_ref(),
            None => {},
        }
    }
}

/// The owner behind the waker of one slot of a registry.
pub(crate) struct Task {
    /// The queue of the registry that the slot belongs to.
    pub(crate) queue: Arc<ReadyQueue>,
    /// The slot's position in the registry's arena.
    pub(crate) slot: usize,
    /// Whether the slot is in the queue already.
    pub(crate) queued: AtomicBool,
}

impl Task {
    /// The owner for `slot`, which is not queued: a wake of it appends `slot`
    /// to `queue`.
    pub(crate) fn new(queue: Arc<ReadyQueue>, slot: usize) -> (task: Task)
        ensures
            task.queue == queue,
            task.slot == slot,
    {
        Task { queue, slot, queued: AtomicBool::new(false) }
    }

    /// Says that the slot has left the queue and is about to be polled: a wake
    /// from now on queues it again.
    pub(crate) fn start_poll(&self) {
        self.queued.store(false, Ordering::SeqCst);
    }
}

impl ArcWake for Task {
    /// Queues the slot, unless it is queued already, and wakes the task that
    /// owns the registry.
    fn wake(arc_self: &Arc<Self>) {
        let was_queued = arc_self.queued.swap(true, Ordering::SeqCst);
        if !was_queued {
            arc_self.queue.enqueue(arc_self.slot);
        }
        arc_self.queue.wake_parent();
    }
}

impl Wake for Task {
    fn wake(self: Arc<Self>) {
        ArcWake::wake(&self);
    }

    fn wake_by_ref(self: &Arc<Self>) {
        ArcWake::wake(self);
    }
}

} // verus!
