//! The parts of `std::sync` that the handles are built from, with what the
//! verifier is told of them. None of it is proved; all of it is stated here.

use std::sync::Arc;
use std::sync::Mutex;
use std::sync::MutexGuard;
use vstd::prelude::*;

verus! {

/// `std::sync::Mutex`. The verifier sees no field of it: a lock is a value
/// with an identity, and what it holds at a given moment is unknown.
#[verifier::external_type_specification]
#[verifier::external_body]
#[verifier::reject_recursive_types(T)]
pub struct ExMutex<T: ?Sized>(Mutex<T>);

/// `std::sync::MutexGuard`, the proof of holding a lock. Opaque as well.
#[verifier::external_type_specification]
#[verifier::external_body]
#[verifier::reject_recursive_types(T)]
pub struct ExMutexGuard<'a, T: ?Sized + 'a>(MutexGuard<'a, T>);

/// `Mutex::new` builds a lock around a value. Nothing is claimed of the lock.
pub assume_specification<T>[ Mutex::<T>::new ](value: T) -> (cell: Mutex<T>);

/// `Arc::clone` on a shared lock: a second pointer to the same allocation,
/// hence to the same lock. In the logic a pointer is the value it points to,
/// so the two are equal.
#[verifier::external_body]
pub(crate) fn share<V>(cell: &Arc<Mutex<V>>) -> (other: Arc<Mutex<V>>)
    ensures
        other == *cell,
{
    Arc::clone(cell)
}

/// `Mutex::lock`, waiting until the lock is free. Nothing is claimed of the
/// state that the guard gives access to: any handle may have changed it.
///
/// A poisoned lock means that a thread died while it held the lock. That is
/// never taken for a valid state: the calling thread ends here, with `caller`
/// in the message. Every caller takes one lock at a time and gives it back
/// before it returns, so no thread asks for a lock that it holds.
#[verifier::external_body]
pub(crate) fn lock<'a, V>(cell: &'a Mutex<V>, caller: &str) -> (guard: MutexGuard<'a, V>) {
    cell.lock().expect(caller)
}

/// `Deref::deref` of a guard: the state behind the lock, to read. Nothing is
/// claimed of that state.
#[verifier::external_body]
pub(crate) fn held<'a, V>(guard: &'a MutexGuard<'_, V>) -> (state: &'a V) {
    &**guard
}

/// `DerefMut::deref_mut` of a guard: the state behind the lock, to change.
/// Nothing is claimed of the state that is found there.
#[verifier::external_body]
pub(crate) fn held_mut<'a, V>(guard: &'a mut MutexGuard<'_, V>) -> (state: &'a mut V) {
    &mut **guard
}

} // verus!
