//! The single-owner mutation cells: an unconditional-access cell for freely
//! copyable values, and a borrow-tracked cell that enforces "many readers or
//! one writer" with a runtime counter and claim guards.

pub mod cell;
pub mod refcell;

pub use cell::Cell;
pub use refcell::BorrowError;
pub use refcell::BorrowMutError;
pub use refcell::BorrowRef;
pub use refcell::BorrowRefMut;
pub use refcell::Ref;
pub use refcell::RefCell;
pub use refcell::RefMut;
