//! The shared/exclusive lock that guards a cell's storage: `std::sync::RwLock`
//! and its two guards, with the few calls the cell makes on them.
//!
//! Only the calls that answer at once are made. A lock whose waiting acquire
//! reports a request of the holding thread as an error, as that of the crate
//! `rwlock_rs` does, is not to be had from the registry, and the waiting
//! calls of std's lock may deadlock or panic on such a request.

use std::ops::{Deref, DerefMut};
use std::sync::{RwLock, RwLockReadGuard, RwLockWriteGuard};
use vstd::prelude::*;

verus! {

/// `std::sync::RwLock`, opaque to the verifier.
#[verifier::external_type_specification]
#[verifier::external_body]
#[verifier::reject_recursive_types(T)]
pub struct ExRwLock<T: ?Sized>(RwLock<T>);

/// `std::sync::RwLockReadGuard`, opaque to the verifier.
#[verifier::external_type_specification]
#[verifier::external_body]
#[verifier::reject_recursive_types(T)]
pub struct ExRwLockReadGuard<'a, T: ?Sized>(RwLockReadGuard<'a, T>);

/// `std::sync::RwLockWriteGuard`, opaque to the verifier.
#[verifier::external_type_specification]
#[verifier::external_body]
#[verifier::reject_recursive_types(T)]
pub struct ExRwLockWriteGuard<'a, T: ?Sized + 'a>(RwLockWriteGuard<'a, T>);

/// `RwLock::new`: a fresh, unlocked lock around `val`. Nothing is claimed of
/// the result: what a lock holds is no function of the lock as a value.
#[verifier::external_body]
pub(crate) fn lock_new<T>(val: T) -> (lock: RwLock<T>) {
    RwLock::new(val)
}

/// Whether `value` is what `Deref::deref` gives for `guard`.
pub closed spec fn read_guard_shows<'b, T>(guard: RwLockReadGuard<'b, T>, value: T) -> bool {
    call_ensures(read_guard_get::<T>, (&guard,), &value)
}

/// Whether `guard` gives access to one value and no other.
pub open spec fn read_guard_shows_one<'b, T>(guard: RwLockReadGuard<'b, T>) -> bool {
    forall|a: T, b: T|
        #![trigger read_guard_shows(guard, a), read_guard_shows(guard, b)]
        read_guard_shows(guard, a) && read_guard_shows(guard, b) ==> a == b
}

/// Whether `guard` gives access to one value and no other.
pub open spec fn write_guard_shows_one<'b, T>(guard: RwLockWriteGuard<'b, T>) -> bool {
    forall|a: T, b: T|
        #![trigger write_guard_shows(guard, a), write_guard_shows(guard, b)]
        write_guard_shows(guard, a) && write_guard_shows(guard, b) ==> a == b
}

/// What a read guard shows is what reading through it gives.
pub(crate) proof fn read_guard_shows_what_it_gives<'b, T>(guard: RwLockReadGuard<'b, T>, value: T)
    ensures
        read_guard_shows(guard, value) <==> call_ensures(
            read_guard_get::<T>,
            (&guard,),
            &value,
        ),
{
}

/// `RwLock::try_read`: a read guard if the lock grants one at once, nothing
/// if it would have to wait or is poisoned. Whether it grants depends on the
/// guards alive in all threads, so of that nothing is claimed. A guard that
/// is granted gives access to the one value under the lock, which no writer
/// can change while the guard lives.
#[verifier::external_body]
pub(crate) fn lock_try_read<'a, T>(lock: &'a RwLock<T>) -> (granted: Option<RwLockReadGuard<'a, T>>)
    ensures
        granted matches Some(guard) ==> read_guard_shows_one(guard),
{
    match lock.try_read() {
        Ok(guard) => Some(guard),
        Err(_) => None,
    }
}

/// `RwLock::try_write`: a write guard if the lock grants one at once, nothing
/// if it would have to wait or is poisoned. Of whether it grants nothing is
/// claimed. A guard that is granted gives access to the one value under the
/// lock.
#[verifier::external_body]
pub(crate) fn lock_try_write<'a, T>(lock: &'a RwLock<T>) -> (granted: Option<RwLockWriteGuard<'a, T>>)
    ensures
        granted matches Some(guard) ==> write_guard_shows_one(guard),
{
    match lock.try_write() {
        Ok(guard) => Some(guard),
        Err(_) => None,
    }
}

/// `RwLock::is_poisoned`: whether a thread panicked while it held the write
/// guard. It depends on what other threads did, so nothing is claimed of
/// the result.
#[verifier::external_body]
pub(crate) fn lock_is_poisoned<T>(lock: &RwLock<T>) -> (poisoned: bool) {
    lock.is_poisoned()
}

/// `Deref::deref` of `RwLockReadGuard`: the value under the lock.
#[verifier::external_body]
pub(crate) fn read_guard_get<'a, 'b, T>(guard: &'a RwLockReadGuard<'b, T>) -> (value: &'a T) {
    guard.deref()
}

/// `Deref::deref` of `RwLockWriteGuard`: the value under the lock.
#[verifier::external_body]
pub(crate) fn write_guard_get<'a, 'b, T>(guard: &'a RwLockWriteGuard<'b, T>) -> (value: &'a T) {
    guard.deref()
}

/// Whether `value` is what `Deref::deref` gives for `guard`.
pub closed spec fn write_guard_shows<'b, T>(guard: RwLockWriteGuard<'b, T>, value: T) -> bool {
    call_ensures(write_guard_get::<T>, (&guard,), &value)
}

/// What a write guard shows is what reading through it gives.
pub(crate) proof fn write_guard_shows_what_it_gives<'b, T>(guard: RwLockWriteGuard<'b, T>, value: T)
    ensures
        write_guard_shows(guard, value) <==> call_ensures(
            write_guard_get::<T>,
            (&guard,),
            &value,
        ),
{
}

/// `DerefMut::deref_mut` of `RwLockWriteGuard`: the value under the lock,
/// open to change. It is the place that `Deref::deref` reads: the value lent
/// is the one the guard showed, and what is left there is what the guard
/// shows afterwards, and the guard then shows nothing else.
#[verifier::external_body]
pub(crate) fn write_guard_get_mut<'a, 'b, T>(guard: &'a mut RwLockWriteGuard<'b, T>) -> (value: &'a mut T)
    ensures
        write_guard_shows(*old(guard), *value),
        write_guard_shows(*final(guard), *final(value)),
        forall|v: T| #[trigger] write_guard_shows(*final(guard), v) ==> v == *final(value),
{
    guard.deref_mut()
}

} // verus!
