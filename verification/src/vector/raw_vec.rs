//! The raw buffer manager: it owns one contiguous allocation sized for a
//! number of elements of a fixed type, and it knows nothing about how many of
//! those slots hold live elements.
//!
//! The allocation itself is held in a standard vector, whose allocator stands
//! in for the system allocator as the external memory capability; that
//! allocator aborts the process on exhaustion, so the only reserve failure
//! this manager reports is a capacity overflow.  The capacity field is the
//! manager's own bookkeeping and follows the growth policy exactly: doubling,
//! never under a small floor that depends on the element size, never under
//! the amount requested, and never past `isize::MAX` bytes.
//!
//! A zero-sized element type never needs memory: the capacity is reported as
//! unbounded and the stored capacity stays zero.

use vstd::prelude::*;
use vstd::layout::size_of;

verus! {

/// The reserve failures the buffer manager can report.  A capacity overflow
/// means the requested capacity computation left the address-space-safe
/// range; an allocation error carries the size and alignment of the request
/// the allocator could not satisfy, so the two stay distinguishable.
#[derive(Debug, Clone, Copy, PartialEq, Eq, Structural)]
pub enum TryReserveError {
    CapacityOverflow,
    AllocError { size: usize, align: usize },
}

/// Capacity floor used when a buffer first grows: small elements get a
/// larger head start so that the first pushes do not reallocate one by one.
pub open spec fn min_non_zero_cap(size: nat) -> int {
    if size == 1 {
        8
    } else if size <= 1024 {
        4
    } else {
        1
    }
}

/// The capacity an amortized grow request settles on: at least double the
/// current capacity, at least `len + additional`, and never under the floor.
pub open spec fn grown_cap(cap: int, len: int, additional: int, size: nat) -> int {
    let required = len + additional;
    let doubled = if 2 * cap > required {
        2 * cap
    } else {
        required
    };
    if min_non_zero_cap(size) > doubled {
        min_non_zero_cap(size)
    } else {
        doubled
    }
}

/// When an amortized grow request is refused as a capacity overflow: a
/// zero-sized element type never grows, the required length must fit in
/// `usize`, and the new allocation must stay within `isize::MAX` bytes.
pub open spec fn grow_overflows(cap: int, len: int, additional: int, size: nat) -> bool {
    ||| size == 0
    ||| len + additional > usize::MAX
    ||| size * grown_cap(cap, len, additional, size) > isize::MAX
}

/// When an exact grow request, which allocates `len + additional` slots and
/// nothing more, is refused as a capacity overflow.
pub open spec fn grow_exact_overflows(len: int, additional: int, size: nat) -> bool {
    ||| size == 0
    ||| len + additional > usize::MAX
    ||| size * (len + additional) > isize::MAX
}

/// The free slots left once `len` of `cap` are taken, computed as a wrapping
/// subtraction: a `len` beyond the capacity reports an enormous remainder,
/// so such a request is treated as already satisfied rather than refused.
pub open spec fn spec_available(cap: int, len: int) -> int {
    if len <= cap {
        cap - len
    } else {
        cap - len + usize::MAX + 1
    }
}

/// Owner of one contiguous allocation with room for `cap` elements of `T`.
/// Live elements are the leading slots of `store`; how many of them are live
/// is the caller's business, not this type's.
pub struct RawVec<T> {
    store: std::vec::Vec<T>,
    cap: usize,
}

impl<T> RawVec<T> {
    /// The slots currently held in the allocation, in order.
    pub closed spec fn contents(&self) -> Seq<T> {
        self.store@
    }

    /// The stored capacity, before the zero-sized-type rule is applied.
    pub closed spec fn cap_spec(&self) -> int {
        self.cap as int
    }

    /// The capacity as reported: unbounded for a zero-sized element type.
    pub open spec fn capacity_spec(&self) -> int {
        if size_of::<T>() == 0 {
            usize::MAX as int
        } else {
            self.cap_spec()
        }
    }

    /// The allocation is within the address-space-safe bound, and a
    /// zero-sized element type holds no allocation at all.
    pub open spec fn wf(&self) -> bool {
        &&& 0 <= self.cap_spec() <= usize::MAX
        &&& size_of::<T>() * self.cap_spec() <= isize::MAX
        &&& size_of::<T>() == 0 ==> self.cap_spec() == 0
    }

    /// A fresh manager: zero capacity, no allocation performed.
    pub fn new() -> (r: Self)
        ensures
            r.wf(),
            r.cap_spec() == 0,
            r.contents() == Seq::<T>::empty(),
    {
        RawVec { store: std::vec::Vec::new(), cap: 0 }
    }

    /// Allocates room for exactly `capacity` elements; for a zero-sized
    /// element type, or a request of zero, no allocation is made.
    pub fn with_capacity(capacity: usize) -> (r: Self)
        requires
            size_of::<T>() * capacity <= isize::MAX,
        ensures
            r.wf(),
            r.cap_spec() == if size_of::<T>() == 0 { 0int } else { capacity as int },
            r.contents() == Seq::<T>::empty(),
    {
        if is_zst::<T>() || capacity == 0 {
            RawVec::new()
        } else {
            let mut store: std::vec::Vec<T> = std::vec::Vec::new();
            store.reserve(capacity);
            RawVec { store, cap: capacity }
        }
    }

    /// Same as `with_capacity`, with the fresh memory zero-filled; zeroed
    /// slots are not observable through this interface, so the contract is
    /// the same.
    pub fn with_capacity_zeroed(capacity: usize) -> (r: Self)
        requires
            size_of::<T>() * capacity <= isize::MAX,
        ensures
            r.wf(),
            r.cap_spec() == if size_of::<T>() == 0 { 0int } else { capacity as int },
            r.contents() == Seq::<T>::empty(),
    {
        RawVec::with_capacity(capacity)
    }

    /// The element capacity as seen by callers: unbounded for a zero-sized
    /// element type, the stored capacity otherwise.
    pub fn capacity(&self) -> (r: usize)
        ensures
            r as int == self.capacity_spec(),
    {
        if is_zst::<T>() {
            usize::MAX
        } else {
            self.cap
        }
    }
}

impl<T> RawVec<T> {
    /// The capacity floor for this element type, as executable code.
    pub(crate) fn min_cap_floor() -> (r: usize)
        ensures
            r as int == min_non_zero_cap(size_of::<T>()),
    {
        let size = core::mem::size_of::<T>();
        if size == 1 {
            8
        } else if size <= 1024 {
            4
        } else {
            1
        }
    }

    /// Retires the old allocation and installs one of exactly `cap` slots,
    /// with the old contents preserved, unless `cap` slots of `T` would pass
    /// `isize::MAX` bytes.
    fn alloc_cap(&mut self, cap: usize) -> (r: Result<(), TryReserveError>)
        requires
            size_of::<T>() != 0,
        ensures
            final(self).contents() == old(self).contents(),
            r is Ok <==> size_of::<T>() * cap <= isize::MAX,
            r is Ok ==> final(self).cap_spec() == cap && final(self).wf(),
            r is Err ==> final(self).cap_spec() == old(self).cap_spec()
                && r == Err::<(), TryReserveError>(TryReserveError::CapacityOverflow),
    {
        let size = core::mem::size_of::<T>();
        match size.checked_mul(cap) {
            None => Err(TryReserveError::CapacityOverflow),
            Some(bytes) => {
                if bytes > isize::MAX as usize {
                    Err(TryReserveError::CapacityOverflow)
                } else {
                    if cap > self.store.len() {
                        let extra = cap - self.store.len();
                        self.store.reserve(extra);
                    }
                    self.cap = cap;
                    Ok(())
                }
            },
        }
    }

    /// Amortized growth: settles on `grown_cap` and reallocates, or reports
    /// a capacity overflow and changes nothing.
    fn grow(&mut self, len: usize, additional: usize) -> (r: Result<(), TryReserveError>)
        requires
            old(self).wf(),
        ensures
            final(self).wf(),
            final(self).contents() == old(self).contents(),
            r is Ok <==> !grow_overflows(
                old(self).cap_spec(),
                len as int,
                additional as int,
                size_of::<T>(),
            ),
            r is Ok ==> final(self).cap_spec() == grown_cap(
                old(self).cap_spec(),
                len as int,
                additional as int,
                size_of::<T>(),
            ),
            r is Err ==> final(self).cap_spec() == old(self).cap_spec()
                && r == Err::<(), TryReserveError>(TryReserveError::CapacityOverflow),
    {
        if is_zst::<T>() {
            return Err(TryReserveError::CapacityOverflow);
        }
        let required_cap = match len.checked_add(additional) {
            Some(c) => c,
            None => {
                return Err(TryReserveError::CapacityOverflow);
            },
        };
        proof {
            assert(self.cap as int <= size_of::<T>() * self.cap as int) by (nonlinear_arith)
                requires
                    size_of::<T>() >= 1,
                    self.cap as int >= 0,
            ;
        }
        let doubled = self.cap * 2;
        let candidate = if doubled > required_cap {
            doubled
        } else {
            required_cap
        };
        let floor = Self::min_cap_floor();
        let new_cap = if floor > candidate {
            floor
        } else {
            candidate
        };
        self.alloc_cap(new_cap)
    }

    /// Exact growth: reallocates to exactly `len + additional` slots, or
    /// reports a capacity overflow and changes nothing.
    fn grow_exact(&mut self, len: usize, additional: usize) -> (r: Result<(), TryReserveError>)
        requires
            old(self).wf(),
        ensures
            final(self).wf(),
            final(self).contents() == old(self).contents(),
            r is Ok <==> !grow_exact_overflows(len as int, additional as int, size_of::<T>()),
            r is Ok ==> final(self).cap_spec() == len + additional,
            r is Err ==> final(self).cap_spec() == old(self).cap_spec()
                && r == Err::<(), TryReserveError>(TryReserveError::CapacityOverflow),
    {
        if is_zst::<T>() {
            return Err(TryReserveError::CapacityOverflow);
        }
        let required_cap = match len.checked_add(additional) {
            Some(c) => c,
            None => {
                return Err(TryReserveError::CapacityOverflow);
            },
        };
        self.alloc_cap(required_cap)
    }

    /// Whether `additional` more slots past `len` fit in the current
    /// capacity, with the wrapping reading of a `len` beyond capacity.
    fn needs_to_grow(&self, len: usize, additional: usize) -> (r: bool)
        ensures
            r == (additional as int > spec_available(self.capacity_spec(), len as int)),
    {
        let c = self.capacity();
        let available = if len <= c {
            c - len
        } else {
            usize::MAX - (len - c) + 1
        };
        additional > available
    }

    /// Makes room for one more element past `len`, growing by the amortized
    /// policy.  A request that cannot be satisfied is a fatal capacity
    /// overflow, which callers rule out.
    pub fn reserve_for_push(&mut self, len: usize)
        requires
            old(self).wf(),
            !grow_overflows(old(self).cap_spec(), len as int, 1, size_of::<T>()),
        ensures
            final(self).wf(),
            final(self).contents() == old(self).contents(),
            final(self).cap_spec() == grown_cap(old(self).cap_spec(), len as int, 1, size_of::<T>()),
    {
        match self.grow(len, 1) {
            Ok(()) => (),
            Err(_) => vstd::pervasive::unreached(),
        }
    }

    /// Ensures room for `additional` elements past `len`, growing by the
    /// amortized policy when the current capacity is short.  A request that
    /// cannot be satisfied is a fatal capacity overflow, which callers rule
    /// out.
    pub fn reserve(&mut self, len: usize, additional: usize)
        requires
            old(self).wf(),
            additional as int > spec_available(old(self).capacity_spec(), len as int)
                ==> !grow_overflows(old(self).cap_spec(), len as int, additional as int, size_of::<T>()),
        ensures
            final(self).wf(),
            final(self).contents() == old(self).contents(),
            final(self).cap_spec() == if additional as int > spec_available(
                old(self).capacity_spec(),
                len as int,
            ) {
                grown_cap(old(self).cap_spec(), len as int, additional as int, size_of::<T>())
            } else {
                old(self).cap_spec()
            },
            old(self).cap_spec() <= final(self).cap_spec() || additional as int <= spec_available(
                old(self).capacity_spec(),
                len as int,
            ),
            len as int <= old(self).capacity_spec() ==> len + additional
                <= final(self).capacity_spec(),
    {
        if self.needs_to_grow(len, additional) {
            match self.grow(len, additional) {
                Ok(()) => (),
                Err(_) => vstd::pervasive::unreached(),
            }
        }
    }

    /// The recoverable form of `reserve`: reports a capacity overflow
    /// instead of treating it as fatal.
    pub fn try_reserve(&mut self, len: usize, additional: usize) -> (r: Result<
        (),
        TryReserveError,
    >)
        requires
            old(self).wf(),
        ensures
            final(self).wf(),
            final(self).contents() == old(self).contents(),
            r is Ok <==> (additional as int <= spec_available(
                old(self).capacity_spec(),
                len as int,
            ) || !grow_overflows(old(self).cap_spec(), len as int, additional as int, size_of::<T>())),
            final(self).cap_spec() == if additional as int > spec_available(
                old(self).capacity_spec(),
                len as int,
            ) && r is Ok {
                grown_cap(old(self).cap_spec(), len as int, additional as int, size_of::<T>())
            } else {
                old(self).cap_spec()
            },
            r is Err ==> r == Err::<(), TryReserveError>(TryReserveError::CapacityOverflow),
    {
        if self.needs_to_grow(len, additional) {
            self.grow(len, additional)
        } else {
            Ok(())
        }
    }

    /// Ensures room for exactly `len + additional` elements, with no
    /// over-allocation past the request.  A request that cannot be satisfied
    /// is a fatal capacity overflow, which callers rule out.
    pub fn reserve_exact(&mut self, len: usize, additional: usize)
        requires
            old(self).wf(),
            additional as int > spec_available(old(self).capacity_spec(), len as int)
                ==> !grow_exact_overflows(len as int, additional as int, size_of::<T>()),
        ensures
            final(self).wf(),
            final(self).contents() == old(self).contents(),
            final(self).cap_spec() == if additional as int > spec_available(
                old(self).capacity_spec(),
                len as int,
            ) {
                len + additional
            } else {
                old(self).cap_spec()
            },
    {
        match self.try_reserve_exact(len, additional) {
            Ok(()) => (),
            Err(_) => vstd::pervasive::unreached(),
        }
    }

    /// The recoverable form of `reserve_exact`.
    pub fn try_reserve_exact(&mut self, len: usize, additional: usize) -> (r: Result<
        (),
        TryReserveError,
    >)
        requires
            old(self).wf(),
        ensures
            final(self).wf(),
            final(self).contents() == old(self).contents(),
            r is Ok <==> (additional as int <= spec_available(
                old(self).capacity_spec(),
                len as int,
            ) || !grow_exact_overflows(len as int, additional as int, size_of::<T>())),
            final(self).cap_spec() == if additional as int > spec_available(
                old(self).capacity_spec(),
                len as int,
            ) && r is Ok {
                len + additional
            } else {
                old(self).cap_spec()
            },
            r is Err ==> r == Err::<(), TryReserveError>(TryReserveError::CapacityOverflow),
    {
        if self.needs_to_grow(len, additional) {
            self.grow_exact(len, additional)
        } else {
            Ok(())
        }
    }
}

impl<T> RawVec<T> {
    /// Writes `value` into the first free slot.
    pub(crate) fn push_slot(&mut self, value: T)
        ensures
            final(self).contents() == old(self).contents().push(value),
            final(self).cap_spec() == old(self).cap_spec(),
    {
        self.store.push(value);
    }

    /// Reads the last live slot out, handing ownership back.
    pub(crate) fn pop_slot(&mut self) -> (r: Option<T>)
        ensures
            final(self).cap_spec() == old(self).cap_spec(),
            old(self).contents().len() > 0 ==> r == Some(old(self).contents().last())
                && final(self).contents() == old(self).contents().drop_last(),
            old(self).contents().len() == 0 ==> r == None::<T>
                && final(self).contents() == old(self).contents(),
    {
        self.store.pop()
    }

    /// Writes `value` into slot `i` and hands back what the slot held.
    pub(crate) fn replace_slot(&mut self, i: usize, value: T) -> (r: T)
        requires
            i < old(self).contents().len(),
        ensures
            r == old(self).contents()[i as int],
            final(self).contents() == old(self).contents().update(i as int, value),
            final(self).cap_spec() == old(self).cap_spec(),
    {
        self.store.push(value);
        let r = self.store.swap_remove(i);
        proof {
            assert(self.contents() =~= old(self).contents().update(i as int, value));
        }
        r
    }

    /// A borrowed view of slot `i`.
    pub(crate) fn get_slot(&self, i: usize) -> (r: &T)
        requires
            i < self.contents().len(),
        ensures
            *r == self.contents()[i as int],
    {
        &self.store[i]
    }

    /// The live slots as one contiguous borrowed view.
    pub(crate) fn slots(&self) -> (r: &[T])
        ensures
            r@ == self.contents(),
    {
        self.store.as_slice()
    }

    /// Reads the first live slot out, shifting the rest down.
    pub(crate) fn pop_front_slot(&mut self) -> (r: Option<T>)
        ensures
            final(self).cap_spec() == old(self).cap_spec(),
            old(self).contents().len() > 0 ==> r == Some(old(self).contents()[0])
                && final(self).contents() == old(self).contents().drop_first(),
            old(self).contents().len() == 0 ==> r == None::<T>
                && final(self).contents() == old(self).contents(),
    {
        if self.store.len() == 0 {
            None
        } else {
            let r = self.store.remove(0);
            proof {
                assert(self.contents() =~= old(self).contents().drop_first());
            }
            Some(r)
        }
    }

    /// How many live slots the buffer holds.
    pub(crate) fn slot_len(&self) -> (r: usize)
        ensures
            r as int == self.contents().len(),
    {
        self.store.len()
    }

    /// The live slots as one contiguous exclusive view; writing through it
    /// changes the slots in place and never their number.
    pub(crate) fn slots_mut(&mut self) -> (r: &mut [T])
        ensures
            r@ == old(self).contents(),
            final(self).contents() == final(r)@,
            final(self).cap_spec() == old(self).cap_spec(),
    {
        self.store.as_mut_slice()
    }

    /// Destroys every live slot; the allocation stays.
    pub(crate) fn clear_slots(&mut self)
        ensures
            final(self).contents() == Seq::<T>::empty(),
            final(self).cap_spec() == old(self).cap_spec(),
    {
        self.store.clear();
    }
}

/// Whether `T` takes no space at all.
fn is_zst<T>() -> (r: bool)
    ensures
        r == (size_of::<T>() == 0),
{
    core::mem::size_of::<T>() == 0
}

} // verus!
