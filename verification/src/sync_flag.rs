//! A flag that one writer sets and any number of readers watch.
//!
//! A flag is made as a pair: a `SyncFlagTx`, which cannot be duplicated, and a
//! `SyncFlagRx`, which can. A controller keeps the first and hands clones of
//! the second to its workers.

use crate::flag_state::FlagState;
use crate::mutex::held;
use crate::mutex::held_mut;
use crate::mutex::lock;
use crate::mutex::share;
use std::sync::Arc;
use std::sync::Mutex;
use vstd::prelude::*;

verus! {

/// The writing half of a flag. There is one per flag: the type has no `Clone`.
pub struct SyncFlagTx {
    inner: Arc<Mutex<FlagState>>,
}

/// A reading half of a flag. Its clones read the same flag.
pub struct SyncFlagRx {
    inner: Arc<Mutex<FlagState>>,
}

impl SyncFlagTx {
    /// The lock around the state that this handle writes. Two handles with the
    /// same lock share one flag.
    pub closed spec fn cell(&self) -> Mutex<FlagState> {
        *self.inner
    }

    /// Sets the flag, for every reader of it. The handle stays with its flag.
    pub fn set(&mut self, state: bool)
        ensures
            final(self).cell() == old(self).cell(),
    {
        let mut guard = lock(&self.inner, "SyncFlagTx::set found the lock of its flag poisoned");
        let flag = held_mut(&mut guard);
        flag.set(state);
    }
}

impl SyncFlagRx {
    /// The lock around the state that this handle reads.
    pub closed spec fn cell(&self) -> Mutex<FlagState> {
        *self.inner
    }

    /// The state of the flag at the moment of the call. It does not wait.
    pub fn get(&self) -> (state: bool) {
        let guard = lock(&self.inner, "SyncFlagRx::get found the lock of its flag poisoned");
        held(&guard).get()
    }
}

impl Clone for SyncFlagRx {
    /// Another reader of the same flag.
    fn clone(&self) -> (other: Self)
        ensures
            other.cell() == self.cell(),
    {
        SyncFlagRx { inner: share(&self.inner) }
    }
}

/// Makes a flag in the given state and returns its two halves.
pub fn new_syncflag(initial_state: bool) -> (pair: (SyncFlagTx, SyncFlagRx))
    ensures
        pair.0.cell() == pair.1.cell(),
{
    let state = Arc::new(Mutex::new(FlagState::new(initial_state)));
    let tx = SyncFlagTx { inner: share(&state) };
    let rx = SyncFlagRx { inner: state };
    (tx, rx)
}

} // verus!
