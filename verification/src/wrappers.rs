use crate::errors::CellError;
use crate::refs::{Backing, CellRef, CellRefMut, RwRef, RwRefMut};
use crate::rw_cell::RwCell;
use crate::std_cell::{ref_cell_try_borrow, ref_cell_try_borrow_mut};
use std::cell::{Ref, RefCell, RefMut};
use vstd::prelude::*;

verus! {

/// One way to borrow from a cell that checks its borrows at run time,
/// whichever kind of cell it is.
pub trait ReferenceCell<T> {
    /// The one kind of guard that this implementation hands out, or `None`
    /// for one that hands out guards of both kinds.
    spec fn backing() -> Option<Backing>;

    /// Whether `lent` is an outcome of asking this cell for a shared borrow.
    spec fn lends<'a>(&'a self, lent: Option<CellRef<'a, T>>) -> bool;

    /// Whether `lent` is an outcome of asking this cell for an exclusive
    /// borrow.
    spec fn lends_mut<'a>(&'a self, lent: Option<CellRefMut<'a, T>>) -> bool;

    /// A shared borrow if one can be had at once, else nothing.
    fn try_borrow<'a>(&'a self) -> (r: Option<CellRef<'a, T>>)
        ensures
            r matches Some(b) ==> Self::backing() matches Some(k) ==> b.backing() == k,
            self.lends(r),
    ;

    /// An exclusive borrow if one can be had at once, else nothing.
    fn try_borrow_mut<'a>(&'a self) -> (r: Option<CellRefMut<'a, T>>)
        ensures
            r matches Some(b) ==> Self::backing() matches Some(k) ==> b.backing() == k,
            self.lends_mut(r),
    ;
}

/// The borrows that report a refusal as the conflict, for a cell that
/// answers every request at once. `RefCell` is such a cell. A cell behind a
/// lock is not: there a borrow that returns a result may wait for other
/// threads, which its lock has to offer.
pub trait ImmediateCell<T>: ReferenceCell<T> {
    /// A shared borrow, or the conflict where none can be had.
    fn borrow<'a>(&'a self) -> (r: Result<CellRef<'a, T>, CellError>)
        ensures
            r matches Ok(b) ==> Self::backing() matches Some(k) ==> b.backing() == k,
            self.lends(
                match r {
                    Ok(b) => Some(b),
                    Err(_) => None,
                },
            ),
    ;

    /// An exclusive borrow, or the conflict where none can be had.
    fn borrow_mut<'a>(&'a self) -> (r: Result<CellRefMut<'a, T>, CellError>)
        ensures
            r matches Ok(b) ==> Self::backing() matches Some(k) ==> b.backing() == k,
            self.lends_mut(
                match r {
                    Ok(b) => Some(b),
                    Err(_) => None,
                },
            ),
    ;
}

impl<'a, T, R: ReferenceCell<T>> ReferenceCell<T> for &'a R {
    open spec fn backing() -> Option<Backing> {
        R::backing()
    }

    open spec fn lends<'b>(&'b self, lent: Option<CellRef<'b, T>>) -> bool {
        (**self).lends(lent)
    }

    open spec fn lends_mut<'b>(&'b self, lent: Option<CellRefMut<'b, T>>) -> bool {
        (**self).lends_mut(lent)
    }

    fn try_borrow<'b>(&'b self) -> (r: Option<CellRef<'b, T>>)
        ensures
            call_ensures(R::try_borrow, (&**self,), r),
    {
        R::try_borrow(&**self)
    }

    fn try_borrow_mut<'b>(&'b self) -> (r: Option<CellRefMut<'b, T>>)
        ensures
            call_ensures(R::try_borrow_mut, (&**self,), r),
    {
        R::try_borrow_mut(&**self)
    }
}

impl<'a, T, R: ImmediateCell<T>> ImmediateCell<T> for &'a R {
    fn borrow<'b>(&'b self) -> (r: Result<CellRef<'b, T>, CellError>)
        ensures
            call_ensures(R::borrow, (&**self,), r),
    {
        R::borrow(&**self)
    }

    fn borrow_mut<'b>(&'b self) -> (r: Result<CellRefMut<'b, T>, CellError>)
        ensures
            call_ensures(R::borrow_mut, (&**self,), r),
    {
        R::borrow_mut(&**self)
    }
}

impl<'a, T, R: ReferenceCell<T>> ReferenceCell<T> for &'a mut R {
    open spec fn backing() -> Option<Backing> {
        R::backing()
    }

    open spec fn lends<'b>(&'b self, lent: Option<CellRef<'b, T>>) -> bool {
        (**self).lends(lent)
    }

    open spec fn lends_mut<'b>(&'b self, lent: Option<CellRefMut<'b, T>>) -> bool {
        (**self).lends_mut(lent)
    }

    fn try_borrow<'b>(&'b self) -> (r: Option<CellRef<'b, T>>)
        ensures
            call_ensures(R::try_borrow, (&*old(*self),), r),
    {
        R::try_borrow(&**self)
    }

    fn try_borrow_mut<'b>(&'b self) -> (r: Option<CellRefMut<'b, T>>)
        ensures
            call_ensures(R::try_borrow_mut, (&*old(*self),), r),
    {
        R::try_borrow_mut(&**self)
    }
}

impl<'a, T, R: ImmediateCell<T>> ImmediateCell<T> for &'a mut R {
    fn borrow<'b>(&'b self) -> (r: Result<CellRef<'b, T>, CellError>)
        ensures
            call_ensures(R::borrow, (&*old(*self),), r),
    {
        R::borrow(&**self)
    }

    fn borrow_mut<'b>(&'b self) -> (r: Result<CellRefMut<'b, T>, CellError>)
        ensures
            call_ensures(R::borrow_mut, (&*old(*self),), r),
    {
        R::borrow_mut(&**self)
    }
}

/// Whether `granted` is an answer of `cell` to a request for a shared guard.
pub closed spec fn ref_cell_answers<'a, T>(cell: &'a RefCell<T>, granted: Option<Ref<'a, T>>) -> bool {
    call_ensures(ref_cell_try_borrow::<T>, (cell,), granted)
}

/// Whether `granted` is an answer of `cell` to a request for an exclusive
/// guard.
pub closed spec fn ref_cell_answers_mut<'a, T>(
    cell: &'a RefCell<T>,
    granted: Option<RefMut<'a, T>>,
) -> bool {
    call_ensures(ref_cell_try_borrow_mut::<T>, (cell,), granted)
}

impl<T> ReferenceCell<T> for RefCell<T> {
    open spec fn backing() -> Option<Backing> {
        Some(Backing::Std)
    }

    /// A guard of `Std` backing around the guard that the cell granted, or
    /// nothing where it granted none.
    open spec fn lends<'b>(&'b self, lent: Option<CellRef<'b, T>>) -> bool {
        exists|granted: Option<Ref<'b, T>>|
            #[trigger] ref_cell_answers(self, granted) && (lent is Some <==> granted is Some) && (
            lent matches Some(b) ==> b.backing() == Backing::Std && granted == Some(b.plain())
                && b.shows_one())
    }

    /// A guard of `Std` backing around the guard that the cell granted, or
    /// nothing where it granted none.
    open spec fn lends_mut<'b>(&'b self, lent: Option<CellRefMut<'b, T>>) -> bool {
        exists|granted: Option<RefMut<'b, T>>|
            #[trigger] ref_cell_answers_mut(self, granted) && (lent is Some <==> granted is Some)
                && (lent matches Some(b) ==> b.backing() == Backing::Std && granted == Some(
                b.plain(),
            ) && b.shows_one())
    }

    fn try_borrow<'b>(&'b self) -> (r: Option<CellRef<'b, T>>) {
        let granted = ref_cell_try_borrow(self);
        let ghost answer = granted;
        let r = match granted {
            Some(guard) => Some(CellRef::from_std(guard)),
            None => None,
        };
        assert(ref_cell_answers(self, answer));
        r
    }

    fn try_borrow_mut<'b>(&'b self) -> (r: Option<CellRefMut<'b, T>>) {
        let granted = ref_cell_try_borrow_mut(self);
        let ghost answer = granted;
        let r = match granted {
            Some(guard) => Some(CellRefMut::from_std(guard)),
            None => None,
        };
        assert(ref_cell_answers_mut(self, answer));
        r
    }
}

impl<T> ImmediateCell<T> for RefCell<T> {
    fn borrow<'b>(&'b self) -> (r: Result<CellRef<'b, T>, CellError>) {
        let granted = ref_cell_try_borrow(self);
        let ghost answer = granted;
        let r = match granted {
            Some(guard) => Ok(CellRef::from_std(guard)),
            None => Err(CellError {  }),
        };
        assert(ref_cell_answers(self, answer));
        r
    }

    fn borrow_mut<'b>(&'b self) -> (r: Result<CellRefMut<'b, T>, CellError>) {
        let granted = ref_cell_try_borrow_mut(self);
        let ghost answer = granted;
        let r = match granted {
            Some(guard) => Ok(CellRefMut::from_std(guard)),
            None => Err(CellError {  }),
        };
        assert(ref_cell_answers_mut(self, answer));
        r
    }
}

impl<T> ReferenceCell<T> for RwCell<T> {
    open spec fn backing() -> Option<Backing> {
        Some(Backing::Locked)
    }

    /// A guard of `Locked` backing around the borrow that the cell lent, or
    /// nothing where it lent none.
    open spec fn lends<'b>(&'b self, lent: Option<CellRef<'b, T>>) -> bool {
        exists|inner: Option<RwRef<'b, T>>|
            #[trigger] self.lends_shared(inner) && (lent is Some <==> inner is Some) && (
            lent matches Some(b) ==> b.backing() == Backing::Locked && inner == Some(b.locked())
                && b.shows_one())
    }

    /// A guard of `Locked` backing around the borrow that the cell lent, or
    /// nothing where it lent none.
    open spec fn lends_mut<'b>(&'b self, lent: Option<CellRefMut<'b, T>>) -> bool {
        exists|inner: Option<RwRefMut<'b, T>>|
            #[trigger] self.lends_exclusive(inner) && (lent is Some <==> inner is Some) && (
            lent matches Some(b) ==> b.backing() == Backing::Locked && inner == Some(b.locked())
                && b.shows_one())
    }

    fn try_borrow<'b>(&'b self) -> (r: Option<CellRef<'b, T>>) {
        let inner = RwCell::try_borrow(self);
        let ghost lent = inner;
        let r = match inner {
            Some(guard) => Some(CellRef::from_locked(guard)),
            None => None,
        };
        assert(self.lends_shared(lent));
        r
    }

    fn try_borrow_mut<'b>(&'b self) -> (r: Option<CellRefMut<'b, T>>) {
        let inner = RwCell::try_borrow_mut(self);
        let ghost lent = inner;
        let r = match inner {
            Some(guard) => Some(CellRefMut::from_locked(guard)),
            None => None,
        };
        assert(self.lends_exclusive(lent));
        r
    }
}

} // verus!
