use crate::rw_cell::RwCell;
use std::ops::Deref;
use std::sync::{Arc, Weak};
use vstd::prelude::*;

verus! {

/// `Arc::clone`: one more strong pointer to the same allocation, so what it
/// points to is what `this` points to.
#[verifier::external_body]
fn arc_clone<X>(this: &Arc<X>) -> (r: Arc<X>)
    ensures
        *r == **this,
{
    Arc::clone(this)
}

/// `Arc::strong_count`: the number of strong pointers to the allocation.
/// `this` is one of them, so the number is at least one; the rest depends on
/// the handles alive elsewhere.
#[verifier::external_body]
fn arc_strong_count<X>(this: &Arc<X>) -> (n: usize)
    ensures
        n >= 1,
{
    Arc::strong_count(this)
}

/// `Arc::weak_count`: the number of weak pointers to the allocation. It
/// depends on the handles alive elsewhere, so nothing is claimed of it.
#[verifier::external_body]
fn arc_weak_count<X>(this: &Arc<X>) -> (n: usize) {
    Arc::weak_count(this)
}

/// `Arc::ptr_eq`: whether the two point to the same allocation. Where they
/// do, what they point to is one thing. Two allocations are told apart
/// whatever they hold, so nothing is claimed where the answer is `false`.
#[verifier::external_body]
fn arc_ptr_eq<X>(this: &Arc<X>, other: &Arc<X>) -> (same: bool)
    ensures
        same ==> **this == **other,
{
    Arc::ptr_eq(this, other)
}

/// A `std::sync::Weak` pointer to a locked cell. The verifier cannot be told
/// of `Weak` itself, so this holder is opaque to it.
#[verifier::external_body]
#[verifier::reject_recursive_types(T)]
struct WeakPtr<T> {
    weak: Weak<RwCell<T>>,
}

/// `Arc::downgrade`: a weak pointer to the allocation of `this`.
#[verifier::external_body]
fn arc_downgrade<T>(this: &Arc<RwCell<T>>) -> (w: WeakPtr<T>) {
    WeakPtr { weak: Arc::downgrade(this) }
}

/// `Weak::clone`: one more weak pointer to the same allocation.
#[verifier::external_body]
fn weak_clone<T>(this: &WeakPtr<T>) -> (w: WeakPtr<T>) {
    WeakPtr { weak: Weak::clone(&this.weak) }
}

/// `Weak::strong_count`: the number of strong pointers to the allocation,
/// zero once the last of them is gone. Nothing is claimed of it.
#[verifier::external_body]
fn weak_strong_count<T>(this: &WeakPtr<T>) -> (n: usize) {
    Weak::strong_count(&this.weak)
}

/// `Weak::weak_count`: the number of weak pointers to the allocation, or
/// zero once no strong pointer is left. Nothing is claimed of it.
#[verifier::external_body]
fn weak_weak_count<T>(this: &WeakPtr<T>) -> (n: usize) {
    Weak::weak_count(&this.weak)
}

/// `Weak::ptr_eq`: whether the two point to the same allocation.
#[verifier::external_body]
fn weak_ptr_eq<T>(this: &WeakPtr<T>, other: &WeakPtr<T>) -> (same: bool) {
    Weak::ptr_eq(&this.weak, &other.weak)
}

/// `Weak::upgrade`: a strong pointer to the allocation while a strong pointer
/// to it is alive, nothing after the last one was dropped. Which of the two
/// holds depends on the handles alive elsewhere.
#[verifier::external_body]
fn weak_upgrade<T>(this: &WeakPtr<T>) -> (strong: Option<Arc<RwCell<T>>>) {
    Weak::upgrade(&this.weak)
}

/// An owning handle to a locked cell that lives in a reference-counted
/// allocation. The cell lives as long as one such handle does.
#[verifier::reject_recursive_types(T)]
pub struct ArcSyncCell<T> {
    arc: Arc<RwCell<T>>,
}

/// A handle that observes a shared locked cell without keeping it alive.
#[verifier::reject_recursive_types(T)]
pub struct WeakSyncCell<T> {
    weak: WeakPtr<T>,
}

impl<T> ArcSyncCell<T> {
    /// The cell that this handle shares.
    pub closed spec fn cell(&self) -> RwCell<T> {
        *self.arc
    }

    /// Whether `n` is what the allocation answers when asked for the number
    /// of its strong handles.
    pub closed spec fn counts_strong(&self, n: usize) -> bool {
        call_ensures(arc_strong_count::<RwCell<T>>, (&self.arc,), n)
    }

    /// Whether `n` is what the allocation answers when asked for the number
    /// of its weak handles.
    pub closed spec fn counts_weak(&self, n: usize) -> bool {
        call_ensures(arc_weak_count::<RwCell<T>>, (&self.arc,), n)
    }

    /// Whether `same` is the answer to the question whether this handle and
    /// `other` share one allocation.
    pub closed spec fn compares(&self, other: &Self, same: bool) -> bool {
        call_ensures(arc_ptr_eq::<RwCell<T>>, (&self.arc, &other.arc), same)
    }

    /// Whether `weak` is a weak handle made from this handle's allocation.
    pub closed spec fn downgrades_to(&self, weak: WeakSyncCell<T>) -> bool {
        call_ensures(arc_downgrade::<T>, (&self.arc,), weak.weak)
    }

    /// A handle to a fresh allocation whose cell holds `val`: the only strong
    /// handle to it, with no weak one.
    pub fn new(val: T) -> (r: ArcSyncCell<T>)
        ensures
            r.cell().made_from(val),
    {
        ArcSyncCell { arc: Arc::new(RwCell::new(val)) }
    }

    fn internal_new(val: Arc<RwCell<T>>) -> (r: ArcSyncCell<T>)
        ensures
            r.cell() == *val,
    {
        ArcSyncCell { arc: val }
    }

    /// The handle that stands for the answer of an upgrade: one to the
    /// allocation that was reached, or nothing where none was.
    pub fn if_upgraded(upgraded: Option<Arc<RwCell<T>>>) -> (r: Option<ArcSyncCell<T>>)
        ensures
            r is Some <==> upgraded is Some,
            r matches Some(s) ==> upgraded matches Some(a) && s.cell() == *a,
    {
        match upgraded {
            Some(arc) => Some(ArcSyncCell::internal_new(arc)),
            None => None,
        }
    }

    /// The number of strong handles that share this allocation, this one
    /// included.
    pub fn strong_count(&self) -> (n: usize)
        ensures
            n >= 1,
            self.counts_strong(n),
    {
        arc_strong_count(&self.arc)
    }

    /// The number of weak handles to this allocation.
    pub fn weak_count(&self) -> (n: usize)
        ensures
            self.counts_weak(n),
    {
        arc_weak_count(&self.arc)
    }

    /// Whether both handles share one allocation. Where they do, they share
    /// one cell; handles to two allocations differ whatever their cells hold.
    pub fn ptr_eq(&self, other: &Self) -> (same: bool)
        ensures
            self.compares(other, same),
            same ==> self.cell() == other.cell(),
    {
        arc_ptr_eq(&self.arc, &other.arc)
    }

    /// A new weak handle to this allocation. This handle is left as it was.
    #[must_use]
    pub fn create_weak(&self) -> (weak: WeakSyncCell<T>)
        ensures
            self.downgrades_to(weak),
    {
        WeakSyncCell::internal_new(arc_downgrade(&self.arc))
    }
}

impl<T> Deref for ArcSyncCell<T> {
    type Target = RwCell<T>;

    fn deref(&self) -> (r: &RwCell<T>)
        ensures
            *r == self.cell(),
    {
        &*self.arc
    }
}

impl<T> Clone for ArcSyncCell<T> {
    /// One more strong handle to the same allocation.
    fn clone(&self) -> (r: Self)
        ensures
            r.cell() == self.cell(),
    {
        ArcSyncCell::internal_new(arc_clone(&self.arc))
    }
}

impl<T> WeakSyncCell<T> {
    /// Whether `n` is what the allocation answers when asked for the number
    /// of its strong handles.
    pub closed spec fn counts_strong(&self, n: usize) -> bool {
        call_ensures(weak_strong_count::<T>, (&self.weak,), n)
    }

    /// Whether `n` is what the allocation answers when asked for the number
    /// of its weak handles.
    pub closed spec fn counts_weak(&self, n: usize) -> bool {
        call_ensures(weak_weak_count::<T>, (&self.weak,), n)
    }

    /// Whether `same` is the answer to the question whether this handle and
    /// `other` observe one allocation.
    pub closed spec fn compares(&self, other: &Self, same: bool) -> bool {
        call_ensures(weak_ptr_eq::<T>, (&self.weak, &other.weak), same)
    }

    /// Whether `other` is one more weak handle made from this one's pointer.
    pub closed spec fn clones_to(&self, other: WeakSyncCell<T>) -> bool {
        call_ensures(weak_clone::<T>, (&self.weak,), other.weak)
    }

    /// Whether `upgraded` is an answer of the observed allocation to the
    /// request for one more strong pointer.
    pub closed spec fn upgrades_to(&self, upgraded: Option<Arc<RwCell<T>>>) -> bool {
        call_ensures(weak_upgrade::<T>, (&self.weak,), upgraded)
    }

    /// Whether `strong` stands for an answer of the observed allocation to
    /// the request for one more strong pointer: a handle to the cell that
    /// was reached, or nothing where none was.
    pub open spec fn revives(&self, strong: Option<ArcSyncCell<T>>) -> bool {
        exists|upgraded: Option<Arc<RwCell<T>>>|
            #[trigger] self.upgrades_to(upgraded) && (strong is Some <==> upgraded is Some) && (
            strong matches Some(s) ==> upgraded matches Some(a) && s.cell() == *a)
    }

    fn internal_new(val: WeakPtr<T>) -> (r: WeakSyncCell<T>)
        ensures
            r.weak == val,
    {
        WeakSyncCell { weak: val }
    }

    /// The number of strong handles to the allocation; zero once the last
    /// one is gone.
    pub fn strong_count(&self) -> (n: usize)
        ensures
            self.counts_strong(n),
    {
        weak_strong_count(&self.weak)
    }

    /// The number of weak handles to the allocation, as the allocation
    /// reports it: once no strong handle is left it reports zero, though
    /// this handle and other weak ones may still be alive.
    pub fn weak_count(&self) -> (n: usize)
        ensures
            self.counts_weak(n),
    {
        weak_weak_count(&self.weak)
    }

    /// Whether both handles observe one allocation.
    pub fn ptr_eq(&self, other: &Self) -> (same: bool)
        ensures
            self.compares(other, same),
    {
        weak_ptr_eq(&self.weak, &other.weak)
    }

    /// A new strong handle to the observed allocation while a strong handle
    /// to it is alive; nothing once the last one is gone.
    #[must_use]
    pub fn try_create_strong(&self) -> (r: Option<ArcSyncCell<T>>)
        ensures
            self.revives(r),
    {
        let upgraded = weak_upgrade(&self.weak);
        let ghost answer = upgraded;
        let r = ArcSyncCell::if_upgraded(upgraded);
        assert(self.upgrades_to(answer));
        r
    }
}

impl<T> Clone for WeakSyncCell<T> {
    /// One more weak handle to the same allocation.
    fn clone(&self) -> (r: Self)
        ensures
            self.clones_to(r),
    {
        WeakSyncCell::internal_new(weak_clone(&self.weak))
    }
}

} // verus!
