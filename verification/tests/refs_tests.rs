use std::cell::{Ref, RefMut};
use std::mem::size_of;
use sync_cell::refs::{CellRef, CellRefMut, RwRef, RwRefMut};

#[test]
fn test_size() {
    let size1 = size_of::<CellRef<'_, ()>>();
    let size2 = size_of::<CellRefMut<'_, ()>>();
    let size3 = size_of::<Ref<'_, ()>>();
    let size4 = size_of::<RefMut<'_, ()>>();
    let size5 = size_of::<RwRef<'_, ()>>();
    let size6 = size_of::<RwRefMut<'_, ()>>();
    println!("Ref wrapper size: {}", size1);
    println!("MutRef wrapper size: {}", size2);
    println!("Std Ref size: {}", size3);
    println!("Std RefMut size: {}", size4);
    println!("Rw Ref size: {}", size5);
    println!("Rw RefMut size: {}", size6);
}
