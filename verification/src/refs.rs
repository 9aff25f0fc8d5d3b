use crate::lock::{
    read_guard_get, read_guard_shows, read_guard_shows_one, read_guard_shows_what_it_gives,
    write_guard_get, write_guard_get_mut, write_guard_shows, write_guard_shows_one,
    write_guard_shows_what_it_gives,
};
use crate::std_cell::{
    ref_get, ref_mut_get, ref_mut_get_mut, ref_mut_shows, ref_mut_shows_one,
    ref_mut_shows_what_it_gives, ref_shows, ref_shows_one, ref_shows_what_it_gives,
};
use std::cell::{Ref, RefMut};
use std::ops::{Deref, DerefMut};
use std::sync::{RwLockReadGuard, RwLockWriteGuard};
use vstd::prelude::*;

verus! {

/// A shared borrow of a locked cell. While it lives the lock admits other
/// shared borrows and no exclusive one; dropping it gives the permit back.
#[derive(Debug)]
#[verifier::reject_recursive_types(T)]
pub struct RwRef<'scope, T> {
    pub(crate) guard: RwLockReadGuard<'scope, T>,
}

impl<'scope, T> RwRef<'scope, T> {
    /// The lock's permit that this borrow holds.
    pub closed spec fn permit(&self) -> RwLockReadGuard<'scope, T> {
        self.guard
    }

    /// Whether `value` is what the lock's permit gives access to.
    pub closed spec fn shows(&self, value: T) -> bool {
        read_guard_shows(self.guard, value)
    }

    /// Whether this borrow gives access to one value and no other.
    pub open spec fn shows_one(&self) -> bool {
        forall|a: T, b: T|
            #![trigger self.shows(a), self.shows(b)]
            self.shows(a) && self.shows(b) ==> a == b
    }

    /// The borrow that stands for the lock's answer to a non-blocking
    /// request: one that holds the permit, or nothing where none was granted.
    pub fn if_granted(granted: Option<RwLockReadGuard<'scope, T>>) -> (r: Option<Self>)
        ensures
            r is Some <==> granted is Some,
            r matches Some(b) ==> granted == Some(b.permit()),
            r matches Some(b) ==> (read_guard_shows_one(b.permit()) ==> b.shows_one()),
    {
        match granted {
            Some(guard) => {
                let lent = RwRef { guard };
                proof {
                    if read_guard_shows_one(lent.guard) {
                        assert forall|a: T, b: T| lent.shows(a) && lent.shows(b) implies a == b by {
                            assert(read_guard_shows(lent.guard, a));
                            assert(read_guard_shows(lent.guard, b));
                        }
                    }
                }
                Some(lent)
            },
            None => None,
        }
    }
}

impl<T> Deref for RwRef<'_, T> {
    type Target = T;

    fn deref(&self) -> (value: &T)
        ensures
            self.shows(*value),
    {
        let value = read_guard_get(&self.guard);
        proof {
            read_guard_shows_what_it_gives(self.guard, *value);
        }
        value
    }
}

/// An exclusive borrow of a locked cell. While it lives the lock admits no
/// other borrow; dropping it gives the permit back.
#[derive(Debug)]
#[verifier::reject_recursive_types(T)]
pub struct RwRefMut<'scope, T> {
    pub(crate) guard: RwLockWriteGuard<'scope, T>,
}

impl<'scope, T> RwRefMut<'scope, T> {
    /// The lock's permit that this borrow holds.
    pub closed spec fn permit(&self) -> RwLockWriteGuard<'scope, T> {
        self.guard
    }

    /// Whether `value` is what the lock's permit gives access to.
    pub closed spec fn shows(&self, value: T) -> bool {
        write_guard_shows(self.guard, value)
    }

    /// Whether this borrow gives access to one value and no other.
    pub open spec fn shows_one(&self) -> bool {
        forall|a: T, b: T|
            #![trigger self.shows(a), self.shows(b)]
            self.shows(a) && self.shows(b) ==> a == b
    }

    /// The borrow that stands for the lock's answer to a non-blocking
    /// request: one that holds the permit, or nothing where none was granted.
    pub fn if_granted(granted: Option<RwLockWriteGuard<'scope, T>>) -> (r: Option<Self>)
        ensures
            r is Some <==> granted is Some,
            r matches Some(b) ==> granted == Some(b.permit()),
            r matches Some(b) ==> (write_guard_shows_one(b.permit()) ==> b.shows_one()),
    {
        match granted {
            Some(guard) => {
                let lent = RwRefMut { guard };
                proof {
                    if write_guard_shows_one(lent.guard) {
                        assert forall|a: T, b: T| lent.shows(a) && lent.shows(b) implies a == b by {
                            assert(write_guard_shows(lent.guard, a));
                            assert(write_guard_shows(lent.guard, b));
                        }
                    }
                }
                Some(lent)
            },
            None => None,
        }
    }
}

impl<T> Deref for RwRefMut<'_, T> {
    type Target = T;

    fn deref(&self) -> (value: &T)
        ensures
            self.shows(*value),
    {
        let value = write_guard_get(&self.guard);
        proof {
            write_guard_shows_what_it_gives(self.guard, *value);
        }
        value
    }
}

impl<T> DerefMut for RwRefMut<'_, T> {
    fn deref_mut(&mut self) -> (value: &mut T)
        ensures
            old(self).shows(*value),
            final(self).shows(*final(value)),
            forall|v: T| #[trigger] final(self).shows(v) ==> v == *final(value),
    {
        write_guard_get_mut(&mut self.guard)
    }
}

/// Which kind of cell stands behind a unified guard.
#[derive(Clone, Copy, Debug, PartialEq, Eq, Structural)]
pub enum Backing {
    /// A `RefCell`: one owner, borrows counted, no lock.
    Std,
    /// An `RwCell`: a shared/exclusive lock.
    Locked,
}

/// A shared guard of either backing.
#[derive(Debug)]
#[verifier::reject_recursive_types(T)]
pub(crate) enum EitherRef<'scope, T> {
    Std(Ref<'scope, T>),
    Locked(RwRef<'scope, T>),
}

/// An exclusive guard of either backing.
#[derive(Debug)]
#[verifier::reject_recursive_types(T)]
pub(crate) enum EitherRefMut<'scope, T> {
    Std(RefMut<'scope, T>),
    Locked(RwRefMut<'scope, T>),
}

impl<'scope, T> EitherRef<'scope, T> {
    /// Whether `value` is what the guard inside gives access to.
    pub closed spec fn shows(&self, value: T) -> bool {
        match *self {
            EitherRef::Std(plain) => ref_shows(plain, value),
            EitherRef::Locked(lck) => lck.shows(value),
        }
    }

    /// Whether this guard gives access to one value and no other.
    pub open spec fn shows_one(&self) -> bool {
        forall|a: T, b: T|
            #![trigger self.shows(a), self.shows(b)]
            self.shows(a) && self.shows(b) ==> a == b
    }
}

impl<T> Deref for EitherRef<'_, T> {
    type Target = T;

    fn deref(&self) -> (value: &T)
        ensures
            self.shows(*value),
    {
        match self {
            EitherRef::Std(plain) => {
                let value = ref_get(plain);
                proof {
                    ref_shows_what_it_gives(*plain, *value);
                }
                value
            },
            EitherRef::Locked(lck) => lck.deref(),
        }
    }
}

impl<'scope, T> EitherRefMut<'scope, T> {
    /// Whether `value` is what the guard inside gives access to.
    pub closed spec fn shows(&self, value: T) -> bool {
        match *self {
            EitherRefMut::Std(plain) => ref_mut_shows(plain, value),
            EitherRefMut::Locked(lck) => lck.shows(value),
        }
    }

    /// Whether this guard gives access to one value and no other.
    pub open spec fn shows_one(&self) -> bool {
        forall|a: T, b: T|
            #![trigger self.shows(a), self.shows(b)]
            self.shows(a) && self.shows(b) ==> a == b
    }
}

impl<T> Deref for EitherRefMut<'_, T> {
    type Target = T;

    fn deref(&self) -> (value: &T)
        ensures
            self.shows(*value),
    {
        match self {
            EitherRefMut::Std(plain) => {
                let value = ref_mut_get(plain);
                proof {
                    ref_mut_shows_what_it_gives(*plain, *value);
                }
                value
            },
            EitherRefMut::Locked(lck) => lck.deref(),
        }
    }
}

impl<T> DerefMut for EitherRefMut<'_, T> {
    fn deref_mut(&mut self) -> (value: &mut T)
        ensures
            old(self).shows(*value),
            final(self).shows(*final(value)),
            forall|v: T| #[trigger] final(self).shows(v) ==> v == *final(value),
    {
        match self {
            EitherRefMut::Std(plain) => ref_mut_get_mut(plain),
            EitherRefMut::Locked(lck) => write_guard_get_mut(&mut lck.guard),
        }
    }
}

/// A shared borrow obtained through the borrowing interface, whichever cell
/// granted it.
#[derive(Debug)]
#[verifier::reject_recursive_types(T)]
pub struct CellRef<'a, T> {
    pub(crate) ref_: EitherRef<'a, T>,
}

impl<'a, T> CellRef<'a, T> {
    /// Whether `value` is what the guard inside gives access to: for a
    /// locked backing, what that guard shows.
    pub closed spec fn shows(&self, value: T) -> bool {
        self.ref_.shows(value)
    }

    /// Whether this guard gives access to one value and no other.
    pub open spec fn shows_one(&self) -> bool {
        forall|a: T, b: T|
            #![trigger self.shows(a), self.shows(b)]
            self.shows(a) && self.shows(b) ==> a == b
    }

    /// The kind of cell that granted this borrow.
    pub closed spec fn backing(&self) -> Backing {
        match self.ref_ {
            EitherRef::Std(_) => Backing::Std,
            EitherRef::Locked(_) => Backing::Locked,
        }
    }

    /// The locked cell's guard inside this borrow; meaningful where the
    /// backing is `Locked`.
    pub closed spec fn locked(&self) -> RwRef<'a, T> {
        self.ref_->Locked_0
    }

    /// The `RefCell` guard inside this borrow; meaningful where the backing
    /// is `Std`.
    pub closed spec fn plain(&self) -> Ref<'a, T> {
        self.ref_->Std_0
    }

    /// Wraps a guard of a locked cell.
    pub fn from_locked(guard: RwRef<'a, T>) -> (r: Self)
        ensures
            r.backing() == Backing::Locked,
            r.locked() == guard,
            guard.shows_one() ==> r.shows_one(),
    {
        let r = CellRef { ref_: EitherRef::Locked(guard) };
        proof {
            if r.locked().shows_one() {
                assert forall|a: T, b: T| r.shows(a) && r.shows(b) implies a == b by {
                    assert(r.locked().shows(a));
                    assert(r.locked().shows(b));
                }
            }
        }
        r
    }

    /// Wraps a guard of a `RefCell`.
    pub fn from_std(guard: Ref<'a, T>) -> (r: Self)
        ensures
            r.backing() == Backing::Std,
            r.plain() == guard,
            ref_shows_one(guard) ==> r.shows_one(),
    {
        let r = CellRef { ref_: EitherRef::Std(guard) };
        proof {
            if ref_shows_one(r.plain()) {
                assert forall|a: T, b: T| r.shows(a) && r.shows(b) implies a == b by {
                    assert(ref_shows(r.plain(), a));
                    assert(ref_shows(r.plain(), b));
                }
            }
        }
        r
    }

    /// The kind of cell that granted this borrow.
    pub fn kind(&self) -> (k: Backing)
        ensures
            k == self.backing(),
    {
        match &self.ref_ {
            EitherRef::Std(_) => Backing::Std,
            EitherRef::Locked(_) => Backing::Locked,
        }
    }
}

impl<T> Deref for CellRef<'_, T> {
    type Target = T;

    fn deref(&self) -> (value: &T)
        ensures
            self.shows(*value),
    {
        self.ref_.deref()
    }
}

/// An exclusive borrow obtained through the borrowing interface, whichever
/// cell granted it.
#[derive(Debug)]
#[verifier::reject_recursive_types(T)]
pub struct CellRefMut<'a, T> {
    pub(crate) ref_: EitherRefMut<'a, T>,
}

impl<'a, T> CellRefMut<'a, T> {
    /// Whether `value` is what the guard inside gives access to: for a
    /// locked backing, what that guard shows.
    pub closed spec fn shows(&self, value: T) -> bool {
        self.ref_.shows(value)
    }

    /// Whether this guard gives access to one value and no other.
    pub open spec fn shows_one(&self) -> bool {
        forall|a: T, b: T|
            #![trigger self.shows(a), self.shows(b)]
            self.shows(a) && self.shows(b) ==> a == b
    }

    /// The kind of cell that granted this borrow.
    pub closed spec fn backing(&self) -> Backing {
        match self.ref_ {
            EitherRefMut::Std(_) => Backing::Std,
            EitherRefMut::Locked(_) => Backing::Locked,
        }
    }

    /// The locked cell's guard inside this borrow; meaningful where the
    /// backing is `Locked`.
    pub closed spec fn locked(&self) -> RwRefMut<'a, T> {
        self.ref_->Locked_0
    }

    /// The `RefCell` guard inside this borrow; meaningful where the backing
    /// is `Std`.
    pub closed spec fn plain(&self) -> RefMut<'a, T> {
        self.ref_->Std_0
    }

    /// Wraps a guard of a locked cell.
    pub fn from_locked(guard: RwRefMut<'a, T>) -> (r: Self)
        ensures
            r.backing() == Backing::Locked,
            r.locked() == guard,
            guard.shows_one() ==> r.shows_one(),
    {
        let r = CellRefMut { ref_: EitherRefMut::Locked(guard) };
        proof {
            if r.locked().shows_one() {
                assert forall|a: T, b: T| r.shows(a) && r.shows(b) implies a == b by {
                    assert(r.locked().shows(a));
                    assert(r.locked().shows(b));
                }
            }
        }
        r
    }

    /// Wraps a guard of a `RefCell`.
    pub fn from_std(guard: RefMut<'a, T>) -> (r: Self)
        ensures
            r.backing() == Backing::Std,
            r.plain() == guard,
            ref_mut_shows_one(guard) ==> r.shows_one(),
    {
        let r = CellRefMut { ref_: EitherRefMut::Std(guard) };
        proof {
            if ref_mut_shows_one(r.plain()) {
                assert forall|a: T, b: T| r.shows(a) && r.shows(b) implies a == b by {
                    assert(ref_mut_shows(r.plain(), a));
                    assert(ref_mut_shows(r.plain(), b));
                }
            }
        }
        r
    }

    /// The kind of cell that granted this borrow.
    pub fn kind(&self) -> (k: Backing)
        ensures
            k == self.backing(),
    {
        match &self.ref_ {
            EitherRefMut::Std(_) => Backing::Std,
            EitherRefMut::Locked(_) => Backing::Locked,
        }
    }
}

impl<T> Deref for CellRefMut<'_, T> {
    type Target = T;

    fn deref(&self) -> (value: &T)
        ensures
            self.shows(*value),
    {
        self.ref_.deref()
    }
}

impl<T> DerefMut for CellRefMut<'_, T> {
    fn deref_mut(&mut self) -> (value: &mut T)
        ensures
            old(self).shows(*value),
            final(self).shows(*final(value)),
            forall|v: T| #[trigger] final(self).shows(v) ==> v == *final(value),
    {
        self.ref_.deref_mut()
    }
}

} // verus!
