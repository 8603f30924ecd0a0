//! The shared producer/consumer bridge: the event queue behind a verified
//! reader-writer lock. Any number of hook-owned producer threads may enqueue
//! concurrently; the single consumer drains. Each operation is one short
//! critical section over the sequential queue, so enqueue order within a
//! critical-section interleaving is exactly what `drain_all` later returns —
//! the ordering laws in `queue` state what that guarantees per producer.

use vstd::prelude::*;
use vstd::rwlock::{RwLock, RwLockPredicate};

use crate::event::Event;
use crate::queue::EventQueue;

verus! {

/// The lock invariant of the bridge: any queue contents are legal — the
/// queue grows without bound rather than ever dropping input.
pub struct AnyQueue {}

impl RwLockPredicate<EventQueue> for AnyQueue {
    open spec fn inv(self, v: EventQueue) -> bool {
        true
    }
}

/// The bridge itself: a queue jointly owned by every producer callback and
/// exactly one consumer, created once at startup and never destroyed while
/// the process runs. All access goes through `enqueue` and `drain_all`; no
/// caller ever holds a reference to the internals.
pub struct EventBridge {
    lock: RwLock<EventQueue, AnyQueue>,
}

impl EventBridge {
    /// A bridge with an empty queue.
    pub fn new() -> (b: EventBridge) {
        EventBridge { lock: RwLock::new(EventQueue::new(), Ghost(AnyQueue {})) }
    }

    /// Producer side: append one event, in one short critical section —
    /// never blocks beyond the lock, never fails, never reorders. Safe to
    /// call from any thread holding a shared reference to the bridge.
    pub fn enqueue(&self, e: Event) {
        let (mut q, handle) = self.lock.acquire_write();
        q.enqueue(e);
        handle.release_write(q);
    }

    /// Consumer side: remove and return every event present at the instant
    /// of the call, in FIFO order, leaving the queue empty — one atomic
    /// critical section, so no event is seen by two drains and none is
    /// skipped. An empty queue yields an empty vector; the call never
    /// blocks on input and never errors.
    pub fn drain_all(&self) -> (drained: Vec<Event>) {
        let (mut q, handle) = self.lock.acquire_write();
        let drained = q.drain_all();
        handle.release_write(q);
        drained
    }
}

} // verus!
