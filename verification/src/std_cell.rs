//! The single-owner cell that the borrowing interface also covers:
//! `std::cell::RefCell` and its two guards, with the few calls made on them.

use std::cell::{Ref, RefCell, RefMut};
use std::ops::{Deref, DerefMut};
use vstd::prelude::*;

verus! {

/// `std::cell::RefCell`, opaque to the verifier.
#[verifier::external_type_specification]
#[verifier::external_body]
#[verifier::reject_recursive_types(T)]
pub struct ExRefCell<T: ?Sized>(RefCell<T>);

/// `std::cell::Ref`, opaque to the verifier.
#[verifier::external_type_specification]
#[verifier::external_body]
#[verifier::reject_recursive_types(T)]
pub struct ExRef<'b, T: ?Sized>(Ref<'b, T>);

/// `std::cell::RefMut`, opaque to the verifier.
#[verifier::external_type_specification]
#[verifier::external_body]
#[verifier::reject_recursive_types(T)]
pub struct ExRefMut<'b, T: ?Sized + 'b>(RefMut<'b, T>);

/// Whether `value` is what `Deref::deref` gives for `guard`.
pub closed spec fn ref_shows<'b, T>(guard: Ref<'b, T>, value: T) -> bool {
    call_ensures(ref_get::<T>, (&guard,), &value)
}

/// Whether `guard` gives access to one value and no other.
pub open spec fn ref_shows_one<'b, T>(guard: Ref<'b, T>) -> bool {
    forall|a: T, b: T|
        #![trigger ref_shows(guard, a), ref_shows(guard, b)]
        ref_shows(guard, a) && ref_shows(guard, b) ==> a == b
}

/// Whether `guard` gives access to one value and no other.
pub open spec fn ref_mut_shows_one<'b, T>(guard: RefMut<'b, T>) -> bool {
    forall|a: T, b: T|
        #![trigger ref_mut_shows(guard, a), ref_mut_shows(guard, b)]
        ref_mut_shows(guard, a) && ref_mut_shows(guard, b) ==> a == b
}

/// What a shared guard shows is what reading through it gives.
pub(crate) proof fn ref_shows_what_it_gives<'b, T>(guard: Ref<'b, T>, value: T)
    ensures
        ref_shows(guard, value) <==> call_ensures(ref_get::<T>, (&guard,), &value),
{
}

/// `RefCell::try_borrow`: a shared guard unless the value is mutably
/// borrowed. Whether it is depends on the guards alive, which the cell as a
/// value does not show, so of that nothing is claimed. A guard that is
/// granted gives access to the one value in the cell, which cannot change
/// while the guard lives.
#[verifier::external_body]
pub(crate) fn ref_cell_try_borrow<'a, T>(cell: &'a RefCell<T>) -> (granted: Option<Ref<'a, T>>)
    ensures
        granted matches Some(guard) ==> ref_shows_one(guard),
{
    match cell.try_borrow() {
        Ok(guard) => Some(guard),
        Err(_) => None,
    }
}

/// `RefCell::try_borrow_mut`: an exclusive guard unless the value is borrowed
/// in any way. Of whether it is nothing is claimed. A guard that is granted
/// gives access to the one value in the cell.
#[verifier::external_body]
pub(crate) fn ref_cell_try_borrow_mut<'a, T>(cell: &'a RefCell<T>) -> (granted: Option<RefMut<'a, T>>)
    ensures
        granted matches Some(guard) ==> ref_mut_shows_one(guard),
{
    match cell.try_borrow_mut() {
        Ok(guard) => Some(guard),
        Err(_) => None,
    }
}

/// `Deref::deref` of `Ref`: the borrowed value.
#[verifier::external_body]
pub(crate) fn ref_get<'a, 'b, T>(guard: &'a Ref<'b, T>) -> (value: &'a T) {
    guard.deref()
}

/// `Deref::deref` of `RefMut`: the borrowed value.
#[verifier::external_body]
pub(crate) fn ref_mut_get<'a, 'b, T>(guard: &'a RefMut<'b, T>) -> (value: &'a T) {
    guard.deref()
}

/// Whether `value` is what `Deref::deref` gives for `guard`.
pub closed spec fn ref_mut_shows<'b, T>(guard: RefMut<'b, T>, value: T) -> bool {
    call_ensures(ref_mut_get::<T>, (&guard,), &value)
}

/// What an exclusive guard shows is what reading through it gives.
pub(crate) proof fn ref_mut_shows_what_it_gives<'b, T>(guard: RefMut<'b, T>, value: T)
    ensures
        ref_mut_shows(guard, value) <==> call_ensures(ref_mut_get::<T>, (&guard,), &value),
{
}

/// `DerefMut::deref_mut` of `RefMut`: the borrowed value, open to change. It
/// is the place that `Deref::deref` reads: the value lent is the one the
/// guard showed, and what is left there is what the guard shows afterwards,
/// and the guard then shows nothing else.
#[verifier::external_body]
pub(crate) fn ref_mut_get_mut<'a, 'b, T>(guard: &'a mut RefMut<'b, T>) -> (value: &'a mut T)
    ensures
        ref_mut_shows(*old(guard), *value),
        ref_mut_shows(*final(guard), *final(value)),
        forall|v: T| #[trigger] ref_mut_shows(*final(guard), v) ==> v == *final(value),
{
    guard.deref_mut()
}

} // verus!
