//! A queue of work that any number of threads fill and empty.

use crate::mutex::held;
use crate::mutex::held_mut;
use crate::mutex::lock;
use crate::mutex::share;
use crate::queue_state::QueueState;
use crate::sync_flag::SyncFlagRx;
use crate::wait::WaitState;
use std::sync::Arc;
use std::sync::Mutex;
use vstd::prelude::*;

verus! {

/// A handle to a queue of work. Every clone of it pushes to and pulls from
/// the same sequence of items.
#[verifier::reject_recursive_types(T)]
pub struct WorkQueue<T: Send> {
    inner: Arc<Mutex<QueueState<T>>>,
}

impl<T: Send> WorkQueue<T> {
    /// The lock around the sequence that this handle works on. Two handles
    /// with the same lock share one queue.
    pub closed spec fn cell(&self) -> Mutex<QueueState<T>> {
        *self.inner
    }

    /// A handle to a new, empty queue.
    pub fn new() -> (queue: Self) {
        WorkQueue { inner: Arc::new(Mutex::new(QueueState::new())) }
    }

    /// A handle to a new, empty queue with room for `capacity` items.
    pub fn with_capacity(capacity: usize) -> (queue: Self) {
        WorkQueue { inner: Arc::new(Mutex::new(QueueState::with_capacity(capacity))) }
    }

    /// Takes the oldest item from the queue, or returns `None` if the queue
    /// is empty at that moment. It waits for the lock only, never for work.
    pub fn pull_work(&mut self) -> (work: Option<T>)
        ensures
            final(self).cell() == old(self).cell(),
    {
        let mut guard = lock(&self.inner, "WorkQueue::pull_work found the lock of its queue poisoned");
        let items = held_mut(&mut guard);
        items.pull()
    }

    /// Appends an item to the queue and returns the number of items in the
    /// queue right after: at least one, and by the time the caller looks at
    /// it possibly out of date.
    pub fn push_work(&mut self, work_element: T) -> (count: usize)
        ensures
            count >= 1,
            final(self).cell() == old(self).cell(),
    {
        let mut guard = lock(&self.inner, "WorkQueue::push_work found the lock of its queue poisoned");
        let items = held_mut(&mut guard);
        items.push(work_element)
    }

    /// One attempt to get work: a pull and, only if that returns nothing, a
    /// look at `run_flag`. The queue and the flag are locked one after the
    /// other, never together, so work pushed while the flag goes down may be
    /// missed.
    pub fn poll(&mut self, run_flag: &SyncFlagRx) -> (next: WaitState<T>)
        ensures
            final(self).cell() == old(self).cell(),
    {
        let pulled = self.pull_work();
        let running = pulled.is_none() && run_flag.get();
        WaitState::attempt(pulled, running)
    }

    /// The number of items in the queue at the moment of the call.
    pub fn len(&self) -> (count: usize) {
        let guard = lock(&self.inner, "WorkQueue::len found the lock of its queue poisoned");
        held(&guard).len()
    }
}

impl<T: Send> Clone for WorkQueue<T> {
    /// Another handle to the same queue. The items are not copied.
    fn clone(&self) -> (other: Self)
        ensures
            other.cell() == self.cell(),
    {
        WorkQueue { inner: share(&self.inner) }
    }
}

} // verus!
