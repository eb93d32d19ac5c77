//! Building blocks normally supplied by a language runtime, written out and
//! verified: a growable contiguous container on top of a raw buffer manager,
//! an owning double-ended iterator over it, and a family of single-owner
//! mutation cells, one unconditional and one tracked by a runtime borrow
//! counter.

pub mod observer;
pub mod pointer;
pub mod queue;
pub mod singleton;
pub mod string;
pub mod vector;
