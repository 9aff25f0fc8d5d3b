use sync_cell::rw_cell::RwCell;
use sync_cell::waiting::{Attempt, Held};

#[test]
fn a_lent_borrow_is_handed_out_and_counted() {
    let cell = RwCell::new(5);
    for held in [
        Held::none(),
        Held { shared: 3, exclusive: false },
        Held { shared: 0, exclusive: true },
    ] {
        match held.shared_step(cell.try_borrow(), false) {
            (Attempt::Granted(guard), now) => {
                assert_eq!(*guard, 5);
                assert_eq!(now, Held { shared: held.shared + 1, exclusive: held.exclusive });
            }
            _ => panic!("a lent borrow was kept back"),
        }
        match held.exclusive_step(cell.try_borrow_mut(), false) {
            (Attempt::Granted(guard), now) => {
                assert_eq!(*guard, 5);
                assert_eq!(now, Held { shared: held.shared, exclusive: true });
            }
            _ => panic!("a lent borrow was kept back"),
        }
    }
}

#[test]
fn a_thread_that_holds_nothing_waits() {
    let none = Held::none();
    assert!(matches!(none.shared_step(None::<u8>, false), (Attempt::Wait, now) if now == none));
    assert!(matches!(none.exclusive_step(None::<u8>, false), (Attempt::Wait, now) if now == none));
}

#[test]
fn own_exclusive_borrow_is_a_conflict() {
    let cell = RwCell::new(1);
    let (first, mine) = Held::none().exclusive_step(cell.try_borrow_mut(), cell.is_poisoned());
    assert!(matches!(first, Attempt::Granted(_)));
    assert_eq!(mine, Held { shared: 0, exclusive: true });
    match mine.shared_step(cell.try_borrow(), cell.is_poisoned()) {
        (Attempt::Conflict(e), now) => {
            assert_eq!(e.message(), "already mutably borrowed by current thread");
            assert_eq!(now, mine);
        }
        _ => panic!("no conflict reported"),
    }
    assert!(matches!(
        mine.exclusive_step(cell.try_borrow_mut(), cell.is_poisoned()),
        (Attempt::Conflict(_), now) if now == mine
    ));
}

#[test]
fn own_shared_borrow_bars_only_the_exclusive_one() {
    let mine = Held { shared: 1, exclusive: false };
    assert!(matches!(mine.shared_step(None::<u8>, false), (Attempt::Wait, now) if now == mine));
    assert!(matches!(
        mine.exclusive_step(None::<u8>, false),
        (Attempt::Conflict(_), now) if now == mine
    ));
}

#[test]
fn a_poisoned_lock_is_a_conflict_for_a_free_thread() {
    let none = Held::none();
    assert!(matches!(none.shared_step(None::<u8>, true), (Attempt::Conflict(_), now) if now == none));
    assert!(matches!(
        none.exclusive_step(None::<u8>, true),
        (Attempt::Conflict(_), now) if now == none
    ));
}

#[test]
fn a_sound_cell_is_not_poisoned() {
    let cell = RwCell::new(0u8);
    assert!(!cell.is_poisoned());
    {
        let mut guard = cell.try_borrow_mut().unwrap();
        *guard = 1;
    }
    assert!(!cell.is_poisoned());
}

#[test]
fn holdings_follow_grants_and_releases() {
    let none = Held::none();
    assert_eq!(none, Held { shared: 0, exclusive: false });
    let (_, one) = none.shared_step(Some(()), false);
    let (_, two) = one.shared_step(Some(()), false);
    assert_eq!(two, Held { shared: 2, exclusive: false });
    assert_eq!(two.without_shared(), one);
    assert_eq!(one.without_shared(), none);
    assert_eq!(none.without_shared(), none);
    let (_, exclusive) = none.exclusive_step(Some(()), false);
    assert_eq!(exclusive, Held { shared: 0, exclusive: true });
    assert_eq!(exclusive.without_exclusive(), none);
    assert_eq!(
        Held { shared: 4, exclusive: true }.without_exclusive(),
        Held { shared: 4, exclusive: false }
    );
}
