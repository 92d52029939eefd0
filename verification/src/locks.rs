//! Sharing a device between threads.
//!
//! What a lock guards changes under the hands of other threads, so nothing is known here of the
//! value that a guard gives access to. A lock that a thread takes while it already holds it may
//! never be had, or may panic: a guard taken here is let go before the function that took it
//! returns, and a device must not come back to its own lock from inside a call.

use std::ops::{Deref, DerefMut};
use std::sync::{
    Arc, Mutex, MutexGuard, PoisonError, RwLock, RwLockReadGuard, RwLockWriteGuard,
};

use vstd::prelude::*;

verus! {

/// `std::sync::Mutex`.
#[verifier::external_type_specification]
#[verifier::external_body]
#[verifier::reject_recursive_types(T)]
pub struct ExMutex<T: ?Sized>(Mutex<T>);

/// `std::sync::MutexGuard`.
#[verifier::external_type_specification]
#[verifier::external_body]
#[verifier::reject_recursive_types(T)]
pub struct ExMutexGuard<'a, T: ?Sized + 'a>(MutexGuard<'a, T>);

/// `std::sync::RwLock`.
#[verifier::external_type_specification]
#[verifier::external_body]
#[verifier::reject_recursive_types(T)]
pub struct ExRwLock<T: ?Sized>(RwLock<T>);

/// `std::sync::RwLockReadGuard`.
#[verifier::external_type_specification]
#[verifier::external_body]
#[verifier::reject_recursive_types(T)]
pub struct ExRwLockReadGuard<'rwlock, T: ?Sized>(RwLockReadGuard<'rwlock, T>);

/// `std::sync::RwLockWriteGuard`.
#[verifier::external_type_specification]
#[verifier::external_body]
#[verifier::reject_recursive_types(T)]
pub struct ExRwLockWriteGuard<'rwlock, T: ?Sized + 'rwlock>(RwLockWriteGuard<'rwlock, T>);

/// `std::sync::PoisonError`.
#[verifier::external_type_specification]
#[verifier::external_body]
#[verifier::reject_recursive_types(T)]
pub struct ExPoisonError<T>(PoisonError<T>);

/// `std::sync::Mutex::lock`: waits for the lock. Whether it is poisoned depends on what other
/// threads did, and so does the value behind the guard: nothing is claimed of either.
pub assume_specification<'a, T: ?Sized>[ Mutex::<T>::lock ](
    mutex: &'a Mutex<T>,
) -> (guard: Result<MutexGuard<'a, T>, PoisonError<MutexGuard<'a, T>>>);

/// `std::sync::RwLock::read`: waits for shared access. Nothing is claimed of the outcome, as with
/// `Mutex::lock`.
pub assume_specification<'a, T: ?Sized>[ RwLock::<T>::read ](
    lock: &'a RwLock<T>,
) -> (guard: Result<RwLockReadGuard<'a, T>, PoisonError<RwLockReadGuard<'a, T>>>);

/// `std::sync::RwLock::write`: waits for exclusive access. Nothing is claimed of the outcome, as
/// with `Mutex::lock`.
pub assume_specification<'a, T: ?Sized>[ RwLock::<T>::write ](
    lock: &'a RwLock<T>,
) -> (guard: Result<RwLockWriteGuard<'a, T>, PoisonError<RwLockWriteGuard<'a, T>>>);

/// `std::sync::PoisonError::into_inner`: the guard of a poisoned lock. Nothing is claimed of it.
pub assume_specification<T>[ PoisonError::<T>::into_inner ](poisoned: PoisonError<T>) -> (inner: T);

/// `std::ops::Deref::deref` of a `std::sync::MutexGuard`. Nothing is claimed of the value.
#[verifier::external_body]
fn locked_ref<'g, 'a, T: ?Sized>(guard: &'g MutexGuard<'a, T>) -> (value: &'g T) {
    guard.deref()
}

/// `std::ops::DerefMut::deref_mut` of a `std::sync::MutexGuard`. Nothing is claimed of the value.
#[verifier::external_body]
fn locked_mut<'g, 'a, T: ?Sized>(guard: &'g mut MutexGuard<'a, T>) -> (value:
    &'g mut T) {
    guard.deref_mut()
}

/// `std::ops::Deref::deref` of a `std::sync::RwLockReadGuard`. Nothing is claimed of the value.
#[verifier::external_body]
fn read_ref<'g, 'a, T: ?Sized>(guard: &'g RwLockReadGuard<'a, T>) -> (value: &'g T) {
    guard.deref()
}

/// `std::ops::DerefMut::deref_mut` of a `std::sync::RwLockWriteGuard`. Nothing is claimed of the
/// value.
#[verifier::external_body]
fn written_mut<'g, 'a, T: ?Sized>(guard: &'g mut RwLockWriteGuard<'a, T>) -> (value:
    &'g mut T) {
    guard.deref_mut()
}

/// `std::clone::Clone::clone` of a `std::sync::Arc`: another pointer to the same value.
#[verifier::external_body]
pub(crate) fn share<T>(pointer: &Arc<T>) -> (other: Arc<T>)
    ensures
        other == *pointer,
{
    pointer.clone()
}

/// The guard is what locking this mutex gave, out of its error where the mutex is poisoned.
pub open spec fn locks_with<'a, T: ?Sized>(lock: &'a Mutex<T>, guard: MutexGuard<'a, T>) -> bool {
    ||| call_ensures(Mutex::<T>::lock, (lock,), Ok(guard))
    ||| exists|poisoned: PoisonError<MutexGuard<'a, T>>|
        {
            &&& call_ensures(Mutex::<T>::lock, (lock,), Err(poisoned))
            &&& #[trigger] call_ensures(
                PoisonError::<MutexGuard<'a, T>>::into_inner,
                (poisoned,),
                guard,
            )
        }
}

/// The guard is what taking shared access to this lock gave, out of its error where the lock is
/// poisoned.
pub open spec fn reads_with<'a, T: ?Sized>(
    lock: &'a RwLock<T>,
    guard: RwLockReadGuard<'a, T>,
) -> bool {
    ||| call_ensures(RwLock::<T>::read, (lock,), Ok(guard))
    ||| exists|poisoned: PoisonError<RwLockReadGuard<'a, T>>|
        {
            &&& call_ensures(RwLock::<T>::read, (lock,), Err(poisoned))
            &&& #[trigger] call_ensures(
                PoisonError::<RwLockReadGuard<'a, T>>::into_inner,
                (poisoned,),
                guard,
            )
        }
}

/// The guard is what taking exclusive access to this lock gave, out of its error where the lock is
/// poisoned.
pub open spec fn writes_with<'a, T: ?Sized>(
    lock: &'a RwLock<T>,
    guard: RwLockWriteGuard<'a, T>,
) -> bool {
    ||| call_ensures(RwLock::<T>::write, (lock,), Ok(guard))
    ||| exists|poisoned: PoisonError<RwLockWriteGuard<'a, T>>|
        {
            &&& call_ensures(RwLock::<T>::write, (lock,), Err(poisoned))
            &&& #[trigger] call_ensures(
                PoisonError::<RwLockWriteGuard<'a, T>>::into_inner,
                (poisoned,),
                guard,
            )
        }
}

/// Locks a mutex, be it poisoned or not.
pub(crate) fn lock<'a, T: ?Sized>(mutex: &'a Mutex<T>) -> (guard: MutexGuard<'a, T>)
    ensures
        locks_with(mutex, guard),
{
    match mutex.lock() {
        Ok(guard) => guard,
        Err(poisoned) => poisoned.into_inner(),
    }
}

/// Takes shared access to a lock, be it poisoned or not.
pub(crate) fn read<'a, T: ?Sized>(lock: &'a RwLock<T>) -> (guard: RwLockReadGuard<'a, T>)
    ensures
        reads_with(lock, guard),
{
    match lock.read() {
        Ok(guard) => guard,
        Err(poisoned) => poisoned.into_inner(),
    }
}

/// Takes exclusive access to a lock, be it poisoned or not.
pub(crate) fn write<'a, T: ?Sized>(lock: &'a RwLock<T>) -> (guard: RwLockWriteGuard<'a, T>)
    ensures
        writes_with(lock, guard),
{
    match lock.write() {
        Ok(guard) => guard,
        Err(poisoned) => poisoned.into_inner(),
    }
}

/// `value` is what the guard of a mutex shows.
pub closed spec fn mutex_shows<'g, 'a, T: ?Sized>(
    guard: MutexGuard<'a, T>,
    value: &'g T,
) -> bool {
    call_ensures(locked_ref, (&guard,), value)
}

/// What a locked mutex guards, to look at.
pub(crate) fn locked<'g, 'a, T: ?Sized>(guard: &'g MutexGuard<'a, T>) -> (value: &'g T)
    ensures
        mutex_shows(*guard, value),
{
    locked_ref(guard)
}

/// `value` is what the guard of a mutex gives to change.
pub closed spec fn mutex_gives<'g, 'a, T: ?Sized>(
    guard: MutexGuard<'a, T>,
    value: &'g mut T,
) -> bool {
    exists|access: &'g mut MutexGuard<'a, T>|
        *access == guard && #[trigger] call_ensures(locked_mut, (access,), value)
}

/// What a locked mutex guards, to change.
pub(crate) fn locked_to_change<'g, 'a, T: ?Sized>(
    guard: &'g mut MutexGuard<'a, T>,
) -> (value: &'g mut T)
    ensures
        mutex_gives(*old(guard), value),
{
    locked_mut(guard)
}

/// `value` is what the guard of shared access shows.
pub closed spec fn lock_shows<'g, 'a, T: ?Sized>(
    guard: RwLockReadGuard<'a, T>,
    value: &'g T,
) -> bool {
    call_ensures(read_ref, (&guard,), value)
}

/// What a lock guards, to look at under shared access.
pub(crate) fn shared<'g, 'a, T: ?Sized>(guard: &'g RwLockReadGuard<'a, T>) -> (value: &'g T)
    ensures
        lock_shows(*guard, value),
{
    read_ref(guard)
}

/// `value` is what the guard of exclusive access gives to change.
pub closed spec fn lock_gives<'g, 'a, T: ?Sized>(
    guard: RwLockWriteGuard<'a, T>,
    value: &'g mut T,
) -> bool {
    exists|access: &'g mut RwLockWriteGuard<'a, T>|
        *access == guard && #[trigger] call_ensures(written_mut, (access,), value)
}

/// What a lock guards, to change under exclusive access.
pub(crate) fn exclusive<'g, 'a, T: ?Sized>(
    guard: &'g mut RwLockWriteGuard<'a, T>,
) -> (value: &'g mut T)
    ensures
        lock_gives(*old(guard), value),
{
    written_mut(guard)
}

} // verus!
