//! The value cell: one slot, no bookkeeping.  Every operation is total and
//! constant-time; nothing can fail.  Reading a copy out is offered only for
//! freely copyable types, so no two logical views ever alias mutable state.

use vstd::prelude::*;

verus! {

/// A single-value container with unconditional access through an exclusive
/// handle.
#[derive(Debug)]
pub struct Cell<T> {
    value: T,
}

impl<T> View for Cell<T> {
    type V = T;

    /// The value the cell holds.
    closed spec fn view(&self) -> T {
        self.value
    }
}

impl<T> Cell<T> {
    /// Wraps `value`.
    pub fn new(value: T) -> (r: Cell<T>)
        ensures
            r@ == value,
    {
        Cell { value }
    }

    /// Overwrites the held value unconditionally; the old value is
    /// destroyed.
    pub fn set(&mut self, value: T)
        ensures
            final(self)@ == value,
    {
        self.value = value;
    }

    /// Exchanges the contents of two cells.  Two exclusive handles never
    /// alias, so both cells simply trade values.
    pub fn swap(&mut self, other: &mut Cell<T>)
        ensures
            final(self)@ == old(other)@,
            final(other)@ == old(self)@,
    {
        core::mem::swap(&mut self.value, &mut other.value);
    }

    /// Overwrites the held value and hands the previous one back.
    pub fn replace(&mut self, value: T) -> (r: T)
        ensures
            r == old(self)@,
            final(self)@ == value,
    {
        let mut value = value;
        core::mem::swap(&mut self.value, &mut value);
        value
    }

    /// Consumes the cell and hands the held value back.
    pub fn into_inner(self) -> (r: T)
        ensures
            r == self@,
    {
        self.value
    }

    /// Exclusive access to the held value in place.
    pub fn get_mut(&mut self) -> (r: &mut T)
        ensures
            *r == old(self)@,
            final(self)@ == *final(r),
    {
        &mut self.value
    }
}

impl<T: Copy> Cell<T> {
    /// A copy of the held value; only a freely copyable type may be read
    /// while it stays in the cell.
    pub fn get(&self) -> (r: T)
        ensures
            r == self@,
    {
        self.value
    }

    /// Reads the value, applies `f`, stores the result, and returns it: the
    /// cell ends up holding exactly the value returned.
    pub fn update<F: FnOnce(T) -> T>(&mut self, f: F) -> (r: T)
        requires
            call_requires(f, (old(self)@,)),
        ensures
            call_ensures(f, (old(self)@,), r),
            final(self)@ == r,
    {
        let old_value = self.get();
        let new_value = f(old_value);
        self.set(new_value);
        new_value
    }
}

impl<T: Default> Cell<T> {
    /// Replaces the held value with the type's default and hands the
    /// previous one back.
    pub fn take(&mut self) -> (r: T)
        ensures
            r == old(self)@,
    {
        self.replace(T::default())
    }
}

impl<T: Copy> Clone for Cell<T> {
    /// A new cell holding a copy of the value; the contained type's own
    /// `clone` is never consulted.
    fn clone(&self) -> (r: Self)
        ensures
            r@ == self@,
    {
        Cell { value: self.value }
    }
}

impl<T: Default> Default for Cell<T> {
    /// A cell holding the contained type's default value.
    fn default() -> Self {
        Cell { value: T::default() }
    }
}

} // verus!
