//! Locking of the shared tables.
//!
//! A lock's content may be changed by any task between two critical
//! sections, so nothing is said of what a lock holds: the tables it guards
//! keep their own invariants as type invariants, which hold whatever the lock
//! hands out.

use std::sync::{Mutex, MutexGuard, PoisonError};
use vstd::prelude::*;

verus! {

#[verifier::external_type_specification]
#[verifier::external_body]
#[verifier::reject_recursive_types(T)]
pub struct ExMutex<T: ?Sized>(Mutex<T>);

#[verifier::external_type_specification]
#[verifier::external_body]
#[verifier::reject_recursive_types(T)]
pub struct ExMutexGuard<'a, T: ?Sized + 'a>(MutexGuard<'a, T>);

#[verifier::external_type_specification]
#[verifier::external_body]
#[verifier::reject_recursive_types(T)]
pub struct ExPoisonError<T>(PoisonError<T>);

/// Relies on `std::sync::Mutex::new`: an unlocked mutex holding `t`.
pub assume_specification<T>[ Mutex::<T>::new ](t: T) -> Mutex<T>;

/// Relies on `std::sync::Mutex::lock`: blocks until the lock is held; `Err`
/// when a task panicked while holding it.
pub assume_specification<T: ?Sized>[ Mutex::<T>::lock ](m: &Mutex<T>) -> Result<
    MutexGuard<'_, T>,
    PoisonError<MutexGuard<'_, T>>,
>;

/// Relies on `MutexGuard`'s `DerefMut`: the value under the held lock.
pub assume_specification<'a, 'b, T: ?Sized>[ <MutexGuard<'a, T> as core::ops::DerefMut>::deref_mut ](
    g: &'b mut MutexGuard<'a, T>,
) -> &'b mut T;

/// Relies on `MutexGuard`'s `Deref`: the value under the held lock.
pub assume_specification<'a, 'b, T: ?Sized>[ <MutexGuard<'a, T> as core::ops::Deref>::deref ](
    g: &'b MutexGuard<'a, T>,
) -> &'b T;

/// Takes the lock, or `None` when it was poisoned by a task that panicked
/// while holding it.
pub fn acquire_lock<T>(mutex: &Mutex<T>) -> Option<MutexGuard<'_, T>> {
    match mutex.lock() {
        Ok(a) => Some(a),
        Err(_e) => None,
    }
}

} // verus!
