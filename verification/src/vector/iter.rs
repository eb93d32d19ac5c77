//! The owning iterator: it consumes a dynamic array, taking over its buffer,
//! and yields the remaining elements from either end, each exactly once.
//! When it is dropped early, the buffer it owns still holds the elements not
//! yet yielded, and they are destroyed with it; nothing is leaked and
//! nothing is destroyed twice.

use vstd::prelude::*;
use super::raw_vec::RawVec;

verus! {

/// An owning double-ended traversal over what is left of a consumed array.
/// The region between the two conceptual cursors is exactly the buffer's
/// live slots.
pub struct IntoIter<T> {
    buf: RawVec<T>,
}

impl<T> View for IntoIter<T> {
    type V = Seq<T>;

    /// The elements not yet yielded, front first.
    closed spec fn view(&self) -> Seq<T> {
        self.buf.contents()
    }
}

impl<T> IntoIter<T> {
    /// Takes over an array's buffer; only `super::vec` constructs one.
    pub(crate) fn from_buf(buf: RawVec<T>) -> (r: Self)
        ensures
            r@ == buf.contents(),
    {
        IntoIter { buf }
    }

    /// Yields the front element, moving the front cursor up, or reports
    /// permanent exhaustion.
    pub fn next(&mut self) -> (r: Option<T>)
        ensures
            old(self)@.len() > 0 ==> r == Some(old(self)@[0])
                && final(self)@ == old(self)@.drop_first(),
            old(self)@.len() == 0 ==> r == None::<T> && final(self)@ == old(self)@,
    {
        self.buf.pop_front_slot()
    }

    /// Yields the back element, moving the back cursor down, or reports
    /// permanent exhaustion.
    pub fn next_back(&mut self) -> (r: Option<T>)
        ensures
            old(self)@.len() > 0 ==> r == Some(old(self)@.last())
                && final(self)@ == old(self)@.drop_last(),
            old(self)@.len() == 0 ==> r == None::<T> && final(self)@ == old(self)@,
    {
        self.buf.pop_slot()
    }

    /// How many elements are still to be yielded.
    pub fn len(&self) -> (r: usize)
        ensures
            r as int == self@.len(),
    {
        self.buf.slot_len()
    }

    /// Consumes the iterator and reports how many elements it had left.
    pub fn count(self) -> (r: usize)
        ensures
            r as int == self@.len(),
    {
        self.buf.slot_len()
    }

    /// The elements not yet yielded, as one contiguous borrowed view.
    pub fn as_slice(&self) -> (r: &[T])
        ensures
            r@ == self@,
    {
        self.buf.slots()
    }
}

impl<T> Default for IntoIter<T> {
    /// An iterator over nothing, as consuming an empty array would give.
    fn default() -> (r: Self)
        ensures
            r@ == Seq::<T>::empty(),
    {
        IntoIter { buf: RawVec::new() }
    }
}

} // verus!
