//! A lock that is only ever tried, never waited for.
use vstd::prelude::*;
use std::sync::{Mutex, MutexGuard};

verus! {

#[verifier::external_type_specification]
#[verifier::external_body]
#[verifier::reject_recursive_types(T)]
pub struct ExMutex<T: ?Sized>(Mutex<T>);

#[verifier::external_type_specification]
#[verifier::external_body]
#[verifier::reject_recursive_types(T)]
pub struct ExMutexGuard<'a, T: ?Sized + 'a>(MutexGuard<'a, T>);

/// Holds the lock of a [`Lock`] and gives access to its value; the lock is
/// released when it is dropped.
pub type TryLock<'a, T> = MutexGuard<'a, T>;

/// A "mutex" around a value that only supports the `try_lock` operation.
#[verifier::reject_recursive_types(T)]
pub struct Lock<T> {
    data: Mutex<T>,
}

/// `Mutex::new`: a mutex around `t`, unlocked. Whether it is locked later
/// depends on other threads, so nothing is claimed of it.
#[verifier::external_body]
fn mutex_new<T>(t: T) -> Mutex<T> {
    Mutex::new(t)
}

/// `Mutex::try_lock`, without waiting: the guard when the lock was free,
/// also when an earlier holder panicked (the lock knows no poisoning; the
/// guard is taken out of `PoisonError::into_inner`). Whether it was free
/// depends on other holders, so nothing is claimed of the outcome.
#[verifier::external_body]
fn mutex_try_lock<T>(m: &Mutex<T>) -> Option<MutexGuard<'_, T>> {
    match m.try_lock() {
        Ok(guard) => Some(guard),
        Err(std::sync::TryLockError::Poisoned(poisoned)) => Some(poisoned.into_inner()),
        Err(std::sync::TryLockError::WouldBlock) => None,
    }
}

impl<T> Lock<T> {
    /// Creates a new lock around the given value.
    pub fn new(t: T) -> Self {
        Lock { data: mutex_new(t) }
    }

    /// Attempts to acquire this lock: the guard through which the value can
    /// be read and written, or `None` when the lock is held elsewhere.
    pub fn try_lock(&self) -> Option<TryLock<'_, T>> {
        mutex_try_lock(&self.data)
    }
}

} // verus!
