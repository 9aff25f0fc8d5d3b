use crate::lock::{lock_is_poisoned, lock_new, lock_try_read, lock_try_write};
use crate::refs::{RwRef, RwRefMut};
use std::sync::{RwLock, RwLockReadGuard, RwLockWriteGuard};
use vstd::prelude::*;

verus! {

/// A cell whose value is borrowed at run time through a shared/exclusive
/// lock, so that it can be shared between threads. At any moment either any
/// number of shared borrows are out and no exclusive one, or one exclusive
/// borrow and no shared one: the lock sees to it.
///
/// Every borrow here is answered at once. A borrow that waits for other
/// threads needs a lock that reports a request from the thread that already
/// holds it as an error; the blocking calls of `std::sync::RwLock` may
/// deadlock or panic there, so this cell does not make them.
#[derive(Debug)]
#[verifier::reject_recursive_types(T)]
pub struct RwCell<T> {
    lock: RwLock<T>,
}

impl<T> RwCell<T> {
    /// Whether this cell's lock is what making a lock around `val` gives.
    pub closed spec fn made_from(&self, val: T) -> bool {
        call_ensures(lock_new::<T>, (val,), self.lock)
    }

    /// Whether `granted` is an answer of this cell's lock to a non-blocking
    /// request for shared access.
    pub closed spec fn answers_shared<'a>(
        &'a self,
        granted: Option<RwLockReadGuard<'a, T>>,
    ) -> bool {
        call_ensures(lock_try_read::<T>, (&self.lock,), granted)
    }

    /// Whether `granted` is an answer of this cell's lock to a non-blocking
    /// request for exclusive access.
    pub closed spec fn answers_exclusive<'a>(
        &'a self,
        granted: Option<RwLockWriteGuard<'a, T>>,
    ) -> bool {
        call_ensures(lock_try_write::<T>, (&self.lock,), granted)
    }

    /// Whether `lent` stands for an answer of this cell's lock to a request
    /// for shared access: a borrow that holds the permit granted, or nothing
    /// where the lock granted none.
    pub open spec fn lends_shared<'a>(&'a self, lent: Option<RwRef<'a, T>>) -> bool {
        exists|granted: Option<RwLockReadGuard<'a, T>>|
            #[trigger] self.answers_shared(granted) && (lent is Some <==> granted is Some) && (
            lent matches Some(b) ==> granted == Some(b.permit()))
    }

    /// Whether `lent` stands for an answer of this cell's lock to a request
    /// for exclusive access: a borrow that holds the permit granted, or
    /// nothing where the lock granted none.
    pub open spec fn lends_exclusive<'a>(&'a self, lent: Option<RwRefMut<'a, T>>) -> bool {
        exists|granted: Option<RwLockWriteGuard<'a, T>>|
            #[trigger] self.answers_exclusive(granted) && (lent is Some <==> granted is Some) && (
            lent matches Some(b) ==> granted == Some(b.permit()))
    }

    /// Whether `poisoned` is what this cell's lock answers when asked whether
    /// it is poisoned.
    pub closed spec fn reports_poisoned(&self, poisoned: bool) -> bool {
        call_ensures(lock_is_poisoned::<T>, (&self.lock,), poisoned)
    }

    /// A cell that holds `val`, with no borrow outstanding.
    pub fn new(val: T) -> (cell: RwCell<T>)
        ensures
            cell.made_from(val),
    {
        RwCell { lock: lock_new(val) }
    }

    /// Whether the lock is poisoned: a thread panicked while it held the
    /// exclusive borrow. Such a cell lends no borrow any more.
    pub fn is_poisoned(&self) -> (poisoned: bool)
        ensures
            self.reports_poisoned(poisoned),
    {
        lock_is_poisoned(&self.lock)
    }

    /// A shared borrow, if the lock grants one at once: it does while no
    /// exclusive borrow is out. Never waits.
    pub fn try_borrow<'a>(&'a self) -> (r: Option<RwRef<'a, T>>)
        ensures
            self.lends_shared(r),
            r matches Some(b) ==> b.shows_one(),
    {
        let granted = lock_try_read(&self.lock);
        let ghost answer = granted;
        let r = RwRef::if_granted(granted);
        assert(self.answers_shared(answer));
        r
    }

    /// An exclusive borrow, if the lock grants one at once: it does while no
    /// borrow of either kind is out. Never waits.
    pub fn try_borrow_mut<'a>(&'a self) -> (r: Option<RwRefMut<'a, T>>)
        ensures
            self.lends_exclusive(r),
            r matches Some(b) ==> b.shows_one(),
    {
        let granted = lock_try_write(&self.lock);
        let ghost answer = granted;
        let r = RwRefMut::if_granted(granted);
        assert(self.answers_exclusive(answer));
        r
    }
}

impl<T: Default> Default for RwCell<T> {
    /// A cell that holds the default value of `T`.
    fn default() -> (cell: Self)
        ensures
            exists|val: T| T::default.ensures((), val) && #[trigger] cell.made_from(val),
    {
        let val = T::default();
        let ghost made = val;
        let cell = RwCell::new(val);
        assert(cell.made_from(made));
        cell
    }
}

impl<T> vstd::std_specs::convert::FromSpecImpl<T> for RwCell<T> {
    /// Two cells made from one value are two cells, each with a lock of its
    /// own: the conversion is no function of the value.
    open spec fn obeys_from_spec() -> bool {
        false
    }

    open spec fn from_spec(v: T) -> Self {
        arbitrary()
    }
}

impl<T> From<T> for RwCell<T> {
    /// A cell that holds `val`.
    fn from(val: T) -> (cell: Self)
        ensures
            cell.made_from(val),
    {
        RwCell::new(val)
    }
}

} // verus!
