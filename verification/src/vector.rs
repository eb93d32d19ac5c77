//! The growable-array family: the raw buffer manager that owns the storage
//! and the growth policy, the dynamic array built on it, and the owning
//! iterator that consumes an array.

pub mod iter;
pub mod raw_vec;
pub mod vec;

pub use iter::IntoIter;
pub use raw_vec::RawVec;
pub use raw_vec::TryReserveError;
pub use vec::Vec;
