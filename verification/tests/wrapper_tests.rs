use std::cell::RefCell;
use sync_cell::refs::Backing;
use sync_cell::rw_cell::RwCell;
use sync_cell::wrappers::{ImmediateCell, ReferenceCell};

fn test_refcell<T: std::fmt::Debug, U: ReferenceCell<T>>(refcell: U) {
    let cell_ref = refcell.try_borrow().unwrap();
    let val = &*cell_ref;
    println!("RefCell value : {:?}", val);
}

fn test_rw_cell<T: std::fmt::Debug, U: ReferenceCell<T>>(refcell: U) {
    let cell_ref = refcell.try_borrow().unwrap();
    let val = &*cell_ref;
    println!("RwCell value : {:?}", val);
}

fn test_refcell_by_ref<T: std::fmt::Debug, U: ReferenceCell<T>>(refcell: &U) {
    let cell_ref = refcell.try_borrow().unwrap();
    let val = &*cell_ref;
    println!("RefCell value : {:?}", val);
}

fn test_rw_cell_by_ref<T: std::fmt::Debug, U: ReferenceCell<T>>(refcell: &U) {
    let cell_ref = refcell.try_borrow().unwrap();
    let val = &*cell_ref;
    println!("RwCell value : {:?}", val);
}

fn test_refcell_mut<U: ReferenceCell<i64>>(refcell: &mut U) {
    let mut cell_ref = refcell.try_borrow_mut().unwrap();
    let val = &mut *cell_ref;
    println!("RefCell value : {}", *val);
    *val = 49;
}

fn test_rw_cell_mut<U: ReferenceCell<i64>>(refcell: &mut U) {
    let mut cell_ref = refcell.try_borrow_mut().unwrap();
    let val = &mut *cell_ref;
    println!("RwCell value : {:?}", *val);
    *val = 49;
}

#[test]
fn test_pass_ref_cell() {
    let cell = RefCell::new(42);
    test_refcell(&cell);
}

#[test]
fn test_pass_ref_cell2() {
    let mut cell = RefCell::new(42);
    test_refcell_mut(&mut cell);
    let val = cell.try_borrow().unwrap();
    println!("RefCell new value : {}", *val);
}

#[test]
fn test_pass_ref_cell3() {
    let cell = RefCell::new(42);
    test_refcell(cell);
}

#[test]
fn test_pass_ref_cell4() {
    let cell = RefCell::new(42);
    test_refcell_by_ref(&cell);
}

#[test]
fn test_pass_rw_cell() {
    let cell = RwCell::new(42);
    test_rw_cell(&cell);
}

#[test]
fn test_pass_rw_cell2() {
    let mut cell = RwCell::new(42);
    test_rw_cell_mut(&mut cell);
    let val = cell.try_borrow().unwrap();
    println!("RwCell new value : {}", *val);
}

#[test]
fn test_pass_rw_cell3() {
    let cell = RwCell::new(42);
    test_rw_cell(cell);
}

#[test]
fn test_pass_rw_cell4() {
    let cell = RwCell::new(42);
    test_rw_cell_by_ref(&cell);
}

fn read_through<U: ReferenceCell<i64>>(cell: &U) -> i64 {
    *cell.try_borrow().unwrap()
}

fn write_through<U: ReferenceCell<i64>>(cell: &U, val: i64) {
    *cell.try_borrow_mut().unwrap() = val;
}

fn read_or_conflict<U: ImmediateCell<i64>>(cell: &U) -> i64 {
    *cell.borrow().unwrap()
}

fn write_or_conflict<U: ImmediateCell<i64>>(cell: &U, val: i64) {
    *cell.borrow_mut().unwrap() = val;
}

#[test]
fn interface_writes_are_seen_on_both_backings() {
    let mut plain = RefCell::new(42i64);
    test_refcell_mut(&mut plain);
    assert_eq!(*plain.try_borrow().unwrap(), 49);
    write_through(&plain, 50);
    assert_eq!(read_through(&plain), 50);
    write_or_conflict(&plain, 51);
    assert_eq!(read_or_conflict(&plain), 51);
    write_or_conflict(&&plain, 52);
    assert_eq!(read_or_conflict(&&plain), 52);

    let mut locked = RwCell::new(42i64);
    test_rw_cell_mut(&mut locked);
    assert_eq!(*locked.try_borrow().unwrap(), 49);
    write_through(&locked, 50);
    assert_eq!(read_through(&locked), 50);
}

#[test]
fn interface_guards_name_their_backing() {
    let plain = RefCell::new(1u8);
    assert_eq!(ReferenceCell::try_borrow(&plain).unwrap().kind(), Backing::Std);
    assert_eq!(ImmediateCell::borrow(&plain).unwrap().kind(), Backing::Std);
    assert_eq!(ReferenceCell::try_borrow_mut(&plain).unwrap().kind(), Backing::Std);
    assert_eq!(ImmediateCell::borrow_mut(&plain).unwrap().kind(), Backing::Std);

    let locked = RwCell::new(1u8);
    assert_eq!(ReferenceCell::try_borrow(&locked).unwrap().kind(), Backing::Locked);
    assert_eq!(ReferenceCell::try_borrow_mut(&locked).unwrap().kind(), Backing::Locked);

    let by_ref = &locked;
    assert_eq!(ReferenceCell::try_borrow(&by_ref).unwrap().kind(), Backing::Locked);
    let mut owned = RefCell::new(2u8);
    let by_mut = &mut owned;
    assert_eq!(ReferenceCell::try_borrow_mut(&by_mut).unwrap().kind(), Backing::Std);
}

#[test]
fn interface_reports_conflicts_on_both_backings() {
    let plain = RefCell::new(1u8);
    {
        let _held = ReferenceCell::try_borrow_mut(&plain).unwrap();
        assert!(ReferenceCell::try_borrow(&plain).is_none());
        assert!(ReferenceCell::try_borrow_mut(&plain).is_none());
        assert!(ImmediateCell::borrow(&plain).is_err());
        match ImmediateCell::borrow_mut(&plain) {
            Ok(_) => panic!("two exclusive borrows"),
            Err(e) => assert_eq!(e.message(), "already mutably borrowed by current thread"),
        }
    }
    {
        let _held = ReferenceCell::try_borrow(&plain).unwrap();
        assert!(ReferenceCell::try_borrow(&plain).is_some());
        assert!(ImmediateCell::borrow_mut(&plain).is_err());
    }
    assert!(ImmediateCell::borrow_mut(&plain).is_ok());

    let locked = RwCell::new(1u8);
    {
        let _held = ReferenceCell::try_borrow_mut(&locked).unwrap();
        assert!(ReferenceCell::try_borrow(&locked).is_none());
        assert!(ReferenceCell::try_borrow_mut(&locked).is_none());
    }
    {
        let _held = ReferenceCell::try_borrow(&locked).unwrap();
        assert!(ReferenceCell::try_borrow(&locked).is_some());
        assert!(ReferenceCell::try_borrow_mut(&locked).is_none());
    }
    assert!(ReferenceCell::try_borrow_mut(&locked).is_some());
}
