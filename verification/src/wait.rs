//! The decision that a waiting worker takes after each attempt to get work.

use vstd::prelude::*;

verus! {

/// Where a worker stands that waits for work or for the order to stop.
#[derive(Debug, PartialEq, Eq)]
pub enum WaitState<T> {
    /// Nothing to do yet and no order to stop: give way, then try again.
    Polling,
    /// This item was taken from the queue.
    ReturnedWork(T),
    /// The queue was empty and the flag was down: no more work is expected.
    Stopped,
}

impl<T> WaitState<T> {
    /// Where one attempt leaves the worker, given what its pull returned and,
    /// for a pull that returned nothing, whether the flag was still up.
    pub open spec fn after_attempt(pulled: Option<T>, running: bool) -> WaitState<T> {
        match pulled {
            Some(work) => WaitState::ReturnedWork(work),
            None => if running {
                WaitState::Polling
            } else {
                WaitState::Stopped
            },
        }
    }

    /// Decides one attempt. Work that was pulled is returned whatever the flag
    /// says: the queue is drained before the flag is heeded. Without work the
    /// flag decides between another attempt and the end.
    pub fn attempt(pulled: Option<T>, running: bool) -> (next: Self)
        ensures
            next == Self::after_attempt(pulled, running),
            pulled matches Some(work) ==> next == WaitState::ReturnedWork(work),
            pulled is None && running ==> next is Polling,
            pulled is None && !running ==> next is Stopped,
    {
        match pulled {
            Some(work) => WaitState::ReturnedWork(work),
            None => if running {
                WaitState::Polling
            } else {
                WaitState::Stopped
            },
        }
    }
}

} // verus!
