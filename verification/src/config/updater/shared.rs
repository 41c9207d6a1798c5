//! What this crate takes on trust from `std::sync::RwLock`, `std::path` and
//! the clock.
//!
//! The value behind the lock belongs to every thread that holds the cache,
//! so nothing below claims what a reader finds there. The guards are carried
//! through verified code as opaque values.

use std::ops::DerefMut;
use std::path::PathBuf;
use std::sync::{RwLock, RwLockReadGuard, RwLockWriteGuard};
use std::time::{Duration, Instant};
use vstd::prelude::*;

verus! {

/// `std::sync::RwLock`, opaque to the verifier.
#[verifier::external_type_specification]
#[verifier::external_body]
#[verifier::reject_recursive_types(T)]
pub struct ExRwLock<T: ?Sized>(RwLock<T>);

/// `std::sync::RwLockReadGuard`, opaque to the verifier.
#[verifier::external_type_specification]
#[verifier::external_body]
#[verifier::reject_recursive_types(T)]
pub struct ExRwLockReadGuard<'rwlock, T: ?Sized>(RwLockReadGuard<'rwlock, T>);

/// `std::sync::RwLockWriteGuard`, opaque to the verifier.
#[verifier::external_type_specification]
#[verifier::external_body]
#[verifier::reject_recursive_types(T)]
pub struct ExRwLockWriteGuard<'rwlock, T: 'rwlock + ?Sized>(RwLockWriteGuard<'rwlock, T>);

/// `std::path::PathBuf`, opaque to the verifier.
#[verifier::external_type_specification]
#[verifier::external_body]
pub struct ExPathBuf(PathBuf);

/// `RwLock::new`: a lock around `value`. Nothing is claimed of the lock.
pub assume_specification<T>[ RwLock::<T>::new ](value: T) -> RwLock<T>;

/// `RwLock::read`: shared access to the value, waiting while a writer holds
/// the lock. A lock that a panicking writer poisoned is read all the same.
/// Nothing is claimed of the value behind the guard. A thread that still
/// holds a guard of the same lock must not call this: `std` may then panic or
/// wait for ever.
#[verifier::external_body]
pub(crate) fn shared<T>(lock: &RwLock<T>) -> RwLockReadGuard<'_, T> {
    match lock.read() {
        Ok(guard) => guard,
        Err(poisoned) => poisoned.into_inner(),
    }
}

/// `RwLock::write`: exclusive access to the value, waiting while readers or
/// another writer hold the lock. A lock that a panicking writer poisoned is
/// written all the same. Nothing is claimed of the value behind the guard. A
/// thread that still holds a guard of the same lock must not call this: `std`
/// may then panic or wait for ever.
#[verifier::external_body]
pub(crate) fn exclusive<T>(lock: &RwLock<T>) -> RwLockWriteGuard<'_, T> {
    match lock.write() {
        Ok(guard) => guard,
        Err(poisoned) => poisoned.into_inner(),
    }
}

/// `DerefMut::deref_mut` on the write guard: the value under the lock, to
/// change while the guard is held. Nothing is claimed of the value found.
#[verifier::external_body]
pub(crate) fn guarded<'a, 'rwlock, T>(guard: &'a mut RwLockWriteGuard<'rwlock, T>) -> &'a mut T {
    guard.deref_mut()
}

/// What `PathBuf::set_file_name` makes of `path` and `file_name`: by its
/// documentation, `path` with its last component replaced by `file_name`.
pub uninterp spec fn file_name_replaced(path: PathBuf, file_name: Seq<char>) -> PathBuf;

/// `PathBuf::set_file_name`, on a path of the caller's own: the result is
/// what that function makes of the two arguments, and nothing more is
/// claimed of it.
#[verifier::external_body]
pub(crate) fn with_file_name(path: PathBuf, file_name: &str) -> (renamed: PathBuf)
    ensures
        renamed == file_name_replaced(path, file_name@),
{
    let mut path = path;
    path.set_file_name(file_name);
    path
}

/// `Instant::elapsed`: the time that has passed since `instant`, which
/// differs from call to call. Nothing is claimed of it.
pub assume_specification[ Instant::elapsed ](instant: &Instant) -> Duration;

} // verus!
