use sync_cell::arc_sync_cell::ArcSyncCell;

#[test]
fn fresh_handle_counts_one_strong_and_no_weak() {
    let cell = ArcSyncCell::new(7);
    assert_eq!(cell.strong_count(), 1);
    assert_eq!(cell.weak_count(), 0);
    assert_eq!(*cell.try_borrow().unwrap(), 7);
}

#[test]
fn clone_then_drop_counts() {
    let cell = ArcSyncCell::new(7);
    let other = cell.clone();
    assert_eq!(cell.strong_count(), 2);
    assert_eq!(other.strong_count(), 2);
    drop(other);
    assert_eq!(cell.strong_count(), 1);
}

#[test]
fn strong_count_follows_the_live_handles() {
    let cell = ArcSyncCell::new(String::from("x"));
    let mut handles = Vec::new();
    for n in 1..6usize {
        assert_eq!(cell.strong_count(), n);
        handles.push(cell.clone());
    }
    while let Some(h) = handles.pop() {
        drop(h);
        assert_eq!(cell.strong_count(), handles.len() + 1);
    }
}

#[test]
fn weak_count_is_apart_from_strong_count() {
    let cell = ArcSyncCell::new(7);
    let w1 = cell.create_weak();
    assert_eq!(cell.strong_count(), 1);
    assert_eq!(cell.weak_count(), 1);
    assert_eq!(w1.strong_count(), 1);
    assert_eq!(w1.weak_count(), 1);
    let w2 = w1.clone();
    assert_eq!(cell.weak_count(), 2);
    assert_eq!(cell.strong_count(), 1);
    let other = cell.clone();
    assert_eq!(cell.weak_count(), 2);
    assert_eq!(w2.strong_count(), 2);
    drop(w1);
    assert_eq!(cell.weak_count(), 1);
    assert_eq!(other.strong_count(), 2);
}

#[test]
fn independent_handles_differ() {
    let a = ArcSyncCell::new(1);
    let b = ArcSyncCell::new(1);
    assert!(!a.ptr_eq(&b));
    assert_eq!(*a.try_borrow().unwrap(), *b.try_borrow().unwrap());
}

#[test]
fn ptr_eq_tells_allocations_apart() {
    let a = ArcSyncCell::new(1);
    let a2 = a.clone();
    let b = ArcSyncCell::new(2);
    assert!(a.ptr_eq(&a));
    assert!(a.ptr_eq(&a2));
    assert!(a2.ptr_eq(&a));
    assert!(!a.ptr_eq(&b));
    let wa = a.create_weak();
    let wa2 = a2.create_weak();
    let wb = b.create_weak();
    assert!(wa.ptr_eq(&wa2));
    assert!(wa.ptr_eq(&wa.clone()));
    assert!(!wa.ptr_eq(&wb));
}

#[test]
fn upgrade_succeeds_while_a_strong_handle_lives() {
    let cell = ArcSyncCell::new(7);
    let weak = cell.create_weak();
    let strong = weak.try_create_strong().unwrap();
    assert_eq!(cell.strong_count(), 2);
    assert!(strong.ptr_eq(&cell));
    assert_eq!(*strong.try_borrow().unwrap(), 7);
    *cell.try_borrow_mut().unwrap() = 8;
    assert_eq!(*strong.try_borrow().unwrap(), 8);
    drop(cell);
    assert_eq!(strong.strong_count(), 1);
    assert!(weak.try_create_strong().is_some());
}

#[test]
fn upgrade_after_last_strong_handle_is_absent() {
    let cell = ArcSyncCell::new(7);
    let weak = cell.create_weak();
    drop(cell);
    assert!(weak.try_create_strong().is_none());
    assert_eq!(weak.strong_count(), 0);
}

#[test]
fn upgrade_stays_absent_with_other_weak_handles_alive() {
    let cell = ArcSyncCell::new(7);
    let w1 = cell.create_weak();
    let w2 = cell.create_weak();
    let other = cell.clone();
    drop(cell);
    assert!(w1.try_create_strong().is_some());
    drop(other);
    assert!(w1.try_create_strong().is_none());
    assert!(w2.try_create_strong().is_none());
    assert!(w2.clone().try_create_strong().is_none());
}

#[test]
fn clones_share_one_cell() {
    let a = ArcSyncCell::new(10);
    let b = a.clone();
    {
        let guard = a.try_borrow_mut().unwrap();
        assert!(b.try_borrow().is_none());
        assert!(b.try_borrow_mut().is_none());
        drop(guard);
    }
    *b.try_borrow_mut().unwrap() = 11;
    assert_eq!(*a.try_borrow().unwrap(), 11);
}

fn is_send<X: Send>() -> bool {
    true
}

fn is_sync<X: Sync>() -> bool {
    true
}

#[test]
fn cells_and_handles_cross_threads_for_shareable_values() {
    assert!(is_send::<sync_cell::rw_cell::RwCell<i32>>());
    assert!(is_sync::<sync_cell::rw_cell::RwCell<i32>>());
    assert!(is_send::<sync_cell::rw_cell::RwCell<std::cell::Cell<i32>>>());
    assert!(is_send::<ArcSyncCell<String>>());
    assert!(is_sync::<ArcSyncCell<String>>());
    assert!(is_send::<sync_cell::arc_sync_cell::WeakSyncCell<String>>());
    assert!(is_sync::<sync_cell::arc_sync_cell::WeakSyncCell<String>>());
}
