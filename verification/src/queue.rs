//! The queue interface: an abstract contract for bounded queues.  No
//! implementation is supplied here; the trait records the shape that
//! implementors outside the library fill in.

use vstd::prelude::*;

verus! {

/// Why a queue operation was refused.
#[derive(Debug, Clone, Copy, PartialEq, Eq, Structural)]
pub enum QueueError {
    EmptyQueue,
    FullQueue,
}

/// What any queue of `E` offers: adding at the back, removing at the
/// front, and a look at the front without removal.
pub trait Queue<E> {
    fn add(&mut self, element: E) -> Result<(), QueueError>;

    fn remove(&mut self) -> Result<E, QueueError>;

    fn peek(&self) -> Result<Option<&E>, QueueError>;
}

} // verus!
