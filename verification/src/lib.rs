//! Runtime-checked interior mutability for shared data: a cell guarded by a
//! shared/exclusive lock, one borrowing interface over that cell and over
//! `std::cell::RefCell`, and reference-counted strong and weak handles to the
//! locked cell.

pub mod errors;
pub mod lock;
pub mod refs;
pub mod rw_cell;
pub mod std_cell;
pub mod waiting;
pub mod wrappers;
pub mod arc_sync_cell;
