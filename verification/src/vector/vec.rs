//! The dynamic array: a raw buffer manager plus a logical length.  Every
//! element in `[0, len)` is live; the buffer past the length is spare room
//! that is never read.  All memory acquisition goes through the buffer
//! manager, never to the allocator directly.

use vstd::prelude::*;
use vstd::layout::size_of;
use super::iter::IntoIter;
use super::raw_vec::RawVec;
use super::raw_vec::min_non_zero_cap;
use super::raw_vec::TryReserveError;
use super::raw_vec::grow_overflows;
use super::raw_vec::grow_exact_overflows;
use super::raw_vec::grown_cap;
use super::raw_vec::spec_available;

verus! {

/// A growable contiguous sequence of `T`, built on a `RawVec`.
pub struct Vec<T> {
    buf: RawVec<T>,
    len: usize,
}

impl<T> View for Vec<T> {
    type V = Seq<T>;

    /// The live elements, in order.
    closed spec fn view(&self) -> Seq<T> {
        self.buf.contents()
    }
}

impl<T> Vec<T> {
    /// The stored capacity of the backing buffer, before the zero-sized-type
    /// rule is applied.
    pub closed spec fn cap(&self) -> int {
        self.buf.cap_spec()
    }

    /// The capacity as reported: unbounded for a zero-sized element type.
    pub open spec fn capacity_spec(&self) -> int {
        if size_of::<T>() == 0 {
            usize::MAX as int
        } else {
            self.cap()
        }
    }

    /// The array is consistent: the buffer is within the address-space-safe
    /// bound, the length counts exactly the live slots, and the length never
    /// passes the capacity.
    pub closed spec fn wf(&self) -> bool {
        &&& self.buf.wf()
        &&& self.buf.contents().len() == self.len
        &&& self.len as int <= self.capacity_spec()
    }

    /// The consequences of well-formedness that callers may need without
    /// seeing inside the type.
    pub proof fn lemma_wf(&self)
        requires
            self.wf(),
        ensures
            self@.len() <= self.capacity_spec(),
            self.capacity_spec() <= usize::MAX,
            0 <= self.cap(),
            size_of::<T>() == 0 ==> self.capacity_spec() == usize::MAX,
    {
    }

    /// An empty array; no allocation is performed.
    pub fn new() -> (r: Self)
        ensures
            r.wf(),
            r@ == Seq::<T>::empty(),
            r.cap() == 0,
    {
        Vec { buf: RawVec::new(), len: 0 }
    }

    /// An empty array over a buffer with room for `capacity` elements.
    pub fn with_capacity(capacity: usize) -> (r: Self)
        requires
            size_of::<T>() * capacity <= isize::MAX,
        ensures
            r.wf(),
            r@ == Seq::<T>::empty(),
            r.cap() == if size_of::<T>() == 0 { 0int } else { capacity as int },
    {
        Vec { buf: RawVec::with_capacity(capacity), len: 0 }
    }

    /// Same as `with_capacity` with the fresh buffer zero-filled; the
    /// zeroing is not observable through this interface.
    pub fn with_capacity_zeroed(capacity: usize) -> (r: Self)
        requires
            size_of::<T>() * capacity <= isize::MAX,
        ensures
            r.wf(),
            r@ == Seq::<T>::empty(),
            r.cap() == if size_of::<T>() == 0 { 0int } else { capacity as int },
    {
        Vec { buf: RawVec::with_capacity_zeroed(capacity), len: 0 }
    }

    /// The number of live elements.
    pub fn len(&self) -> (r: usize)
        requires
            self.wf(),
        ensures
            r as int == self@.len(),
    {
        self.len
    }

    /// The element capacity: unbounded for a zero-sized element type.
    pub fn capacity(&self) -> (r: usize)
        ensures
            r as int == self.capacity_spec(),
    {
        self.buf.capacity()
    }

    /// Appends `value`, growing the buffer by the amortized policy when the
    /// length has reached the capacity.  A growth request that cannot be
    /// satisfied is a fatal capacity overflow, which the caller rules out.
    pub fn push(&mut self, value: T)
        requires
            old(self).wf(),
            old(self)@.len() == old(self).capacity_spec() ==> !grow_overflows(
                old(self).cap(),
                old(self)@.len() as int,
                1,
                size_of::<T>(),
            ),
        ensures
            final(self).wf(),
            final(self)@ == old(self)@.push(value),
            final(self).cap() == if old(self)@.len() == old(self).capacity_spec() {
                grown_cap(old(self).cap(), old(self)@.len() as int, 1, size_of::<T>())
            } else {
                old(self).cap()
            },
            old(self).capacity_spec() <= final(self).capacity_spec(),
    {
        if self.len == self.buf.capacity() {
            self.buf.reserve_for_push(self.len);
        }
        self.buf.push_slot(value);
        self.len = self.len + 1;
    }

    /// The recoverable form of `push`: where growing would overflow the
    /// capacity computation, the element comes back with the error instead
    /// of the overflow being fatal, and the array is left as it was.
    pub fn try_push(&mut self, value: T) -> (r: Result<(), (T, TryReserveError)>)
        requires
            old(self).wf(),
        ensures
            final(self).wf(),
            r is Ok <==> (old(self)@.len() < old(self).capacity_spec() || !grow_overflows(
                old(self).cap(),
                old(self)@.len() as int,
                1,
                size_of::<T>(),
            )),
            r is Ok ==> final(self)@ == old(self)@.push(value),
            r matches Err(e) ==> final(self)@ == old(self)@ && final(self).cap() == old(self).cap()
                && e.0 == value && e.1 == TryReserveError::CapacityOverflow,
            old(self).capacity_spec() <= final(self).capacity_spec(),
    {
        if self.len == self.buf.capacity() {
            match self.buf.try_reserve(self.len, 1) {
                Ok(()) => (),
                Err(e) => {
                    return Err((value, e));
                },
            }
        }
        self.buf.push_slot(value);
        self.len = self.len + 1;
        Ok(())
    }

    /// Removes and returns the last element, or reports emptiness.
    pub fn pop(&mut self) -> (r: Option<T>)
        requires
            old(self).wf(),
        ensures
            final(self).wf(),
            final(self).cap() == old(self).cap(),
            old(self)@.len() > 0 ==> r == Some(old(self)@.last())
                && final(self)@ == old(self)@.drop_last(),
            old(self)@.len() == 0 ==> r == None::<T> && final(self)@ == old(self)@,
    {
        if self.len == 0 {
            return None;
        }
        self.len = self.len - 1;
        match self.buf.pop_slot() {
            Some(v) => Some(v),
            None => vstd::pervasive::unreached(),
        }
    }

    /// Inserts `value` at `index`, shifting `[index, len)` one slot to the
    /// right.  `index` may equal the length; a growth request that cannot be
    /// satisfied is a fatal capacity overflow, which the caller rules out.
    pub fn insert(&mut self, index: usize, value: T)
        requires
            old(self).wf(),
            index as int <= old(self)@.len(),
            old(self)@.len() == old(self).capacity_spec() ==> !grow_overflows(
                old(self).cap(),
                old(self)@.len() as int,
                1,
                size_of::<T>(),
            ),
        ensures
            final(self).wf(),
            final(self)@ == old(self)@.insert(index as int, value),
            old(self).capacity_spec() <= final(self).capacity_spec(),
    {
        let len = self.len;
        if len == self.buf.capacity() {
            self.buf.reserve(len, 1);
        }
        let ghost target = old(self)@.insert(index as int, value);
        let ghost cap_now = self.buf.cap_spec();
        let mut carry = value;
        let mut k: usize = index;
        proof {
            assert(self.buf.contents() =~= target.subrange(0, index as int) + old(
                self,
            )@.subrange(index as int, self.len as int));
        }
        while k < self.len
            invariant
                index <= k <= self.len,
                self.len == old(self).len,
                self.len as int == old(self)@.len(),
                self.buf.wf(),
                self.buf.cap_spec() == cap_now,
                target == old(self)@.insert(index as int, value),
                self.buf.contents() == target.subrange(0, k as int) + old(self)@.subrange(
                    k as int,
                    self.len as int,
                ),
                carry == target[k as int],
            decreases self.len - k,
        {
            carry = self.buf.replace_slot(k, carry);
            proof {
                assert(self.buf.contents() =~= target.subrange(0, k + 1 as int) + old(
                    self,
                )@.subrange(k + 1 as int, self.len as int));
            }
            k = k + 1;
        }
        self.buf.push_slot(carry);
        self.len = self.len + 1;
        proof {
            assert(self.buf.contents() =~= target);
        }
    }

    /// Removes and returns the element at `index`, shifting
    /// `[index + 1, len)` one slot to the left; the relative order of the
    /// rest is preserved.
    pub fn remove(&mut self, index: usize) -> (r: T)
        requires
            old(self).wf(),
            (index as int) < old(self)@.len(),
        ensures
            final(self).wf(),
            r == old(self)@[index as int],
            final(self)@ == old(self)@.remove(index as int),
            final(self).cap() == old(self).cap(),
    {
        let ghost target = old(self)@.remove(index as int);
        let last = match self.buf.pop_slot() {
            Some(v) => v,
            None => vstd::pervasive::unreached(),
        };
        self.len = self.len - 1;
        let mut carry = last;
        let mut k: usize = self.len;
        while k > index
            invariant
                index <= k <= self.len,
                self.len as int == old(self)@.len() - 1,
                self.buf.wf(),
                self.buf.cap_spec() == old(self).cap(),
                target == old(self)@.remove(index as int),
                self.buf.contents() == old(self)@.subrange(0, k as int) + target.subrange(
                    k as int,
                    self.len as int,
                ),
                carry == old(self)@[k as int],
            decreases k,
        {
            carry = self.buf.replace_slot(k - 1, carry);
            proof {
                assert(self.buf.contents() =~= old(self)@.subrange(0, k - 1 as int)
                    + target.subrange(k - 1 as int, self.len as int));
            }
            k = k - 1;
        }
        proof {
            assert(self.buf.contents() =~= target);
        }
        carry
    }

    /// Removes and returns the element at `index`, moving the last element
    /// into its place instead of shifting; the order is not preserved.
    pub fn swap_remove(&mut self, index: usize) -> (r: T)
        requires
            old(self).wf(),
            (index as int) < old(self)@.len(),
        ensures
            final(self).wf(),
            r == old(self)@[index as int],
            final(self)@ == old(self)@.update(index as int, old(self)@.last()).drop_last(),
            final(self).cap() == old(self).cap(),
    {
        let last = match self.buf.pop_slot() {
            Some(v) => v,
            None => vstd::pervasive::unreached(),
        };
        self.len = self.len - 1;
        if index == self.len {
            proof {
                assert(self.buf.contents() =~= old(self)@.update(
                    index as int,
                    old(self)@.last(),
                ).drop_last());
            }
            last
        } else {
            let r = self.buf.replace_slot(index, last);
            proof {
                assert(self.buf.contents() =~= old(self)@.update(
                    index as int,
                    old(self)@.last(),
                ).drop_last());
            }
            r
        }
    }

    /// Destroys every live element and sets the length to zero; the
    /// allocation is retained.
    pub fn clear(&mut self)
        requires
            old(self).wf(),
        ensures
            final(self).wf(),
            final(self)@ == Seq::<T>::empty(),
            final(self).cap() == old(self).cap(),
    {
        self.buf.clear_slots();
        self.len = 0;
    }

    /// Ensures room for `additional` elements past the current length,
    /// growing by the amortized policy.  A growth request that cannot be
    /// satisfied is a fatal capacity overflow, which the caller rules out.
    pub fn reserve(&mut self, additional: usize)
        requires
            old(self).wf(),
            additional as int > spec_available(old(self).capacity_spec(), old(self)@.len() as int)
                ==> !grow_overflows(
                old(self).cap(),
                old(self)@.len() as int,
                additional as int,
                size_of::<T>(),
            ),
        ensures
            final(self).wf(),
            final(self)@ == old(self)@,
            old(self)@.len() + additional <= final(self).capacity_spec(),
            final(self).cap() == if additional as int > spec_available(
                old(self).capacity_spec(),
                old(self)@.len() as int,
            ) {
                grown_cap(old(self).cap(), old(self)@.len() as int, additional as int, size_of::<T>())
            } else {
                old(self).cap()
            },
    {
        self.buf.reserve(self.len, additional);
    }

    /// Ensures room for exactly `additional` elements past the current
    /// length, with no over-allocation past the request.
    pub fn reserve_exact(&mut self, additional: usize)
        requires
            old(self).wf(),
            additional as int > spec_available(old(self).capacity_spec(), old(self)@.len() as int)
                ==> !grow_exact_overflows(old(self)@.len() as int, additional as int, size_of::<T>()),
        ensures
            final(self).wf(),
            final(self)@ == old(self)@,
            final(self).cap() == if additional as int > spec_available(
                old(self).capacity_spec(),
                old(self)@.len() as int,
            ) {
                old(self)@.len() + additional
            } else {
                old(self).cap()
            },
    {
        self.buf.reserve_exact(self.len, additional);
    }

    /// The recoverable form of `reserve`: reports a capacity overflow
    /// instead of treating it as fatal.
    pub fn try_reserve(&mut self, additional: usize) -> (r: Result<(), TryReserveError>)
        requires
            old(self).wf(),
        ensures
            final(self).wf(),
            final(self)@ == old(self)@,
            r is Ok <==> (additional as int <= spec_available(
                old(self).capacity_spec(),
                old(self)@.len() as int,
            ) || !grow_overflows(
                old(self).cap(),
                old(self)@.len() as int,
                additional as int,
                size_of::<T>(),
            )),
            r is Ok ==> old(self)@.len() + additional <= final(self).capacity_spec(),
            r is Err ==> final(self).cap() == old(self).cap() && r == Err::<
                (),
                TryReserveError,
            >(TryReserveError::CapacityOverflow),
    {
        self.buf.try_reserve(self.len, additional)
    }

    /// The recoverable form of `reserve_exact`.
    pub fn try_reserve_exact(&mut self, additional: usize) -> (r: Result<(), TryReserveError>)
        requires
            old(self).wf(),
        ensures
            final(self).wf(),
            final(self)@ == old(self)@,
            r is Ok <==> (additional as int <= spec_available(
                old(self).capacity_spec(),
                old(self)@.len() as int,
            ) || !grow_exact_overflows(old(self)@.len() as int, additional as int, size_of::<T>())),
            r is Err ==> final(self).cap() == old(self).cap() && r == Err::<
                (),
                TryReserveError,
            >(TryReserveError::CapacityOverflow),
    {
        self.buf.try_reserve_exact(self.len, additional)
    }

    /// The live elements as one contiguous borrowed view.
    pub fn as_slice(&self) -> (r: &[T])
        ensures
            r@ == self@,
    {
        self.buf.slots()
    }

    /// The live elements as one contiguous exclusive view; writing through
    /// it changes elements in place.  A slice never changes its length, so
    /// the array stays consistent, which the last clause records.
    pub fn as_mut_slice(&mut self) -> (r: &mut [T])
        requires
            old(self).wf(),
        ensures
            r@ == old(self)@,
            final(self)@ == final(r)@,
            final(self).cap() == old(self).cap(),
            final(r)@.len() == old(self)@.len() ==> final(self).wf(),
    {
        self.buf.slots_mut()
    }

    /// A borrowed view of the element at `index`; the index must have been
    /// validated against the length.
    pub fn get(&self, index: usize) -> (r: &T)
        requires
            (index as int) < self@.len(),
        ensures
            *r == self@[index as int],
    {
        self.buf.get_slot(index)
    }

    /// Consumes the array into an owning iterator.  The buffer and every
    /// live element transfer wholesale; the array's own teardown never runs
    /// on them.
    pub fn into_iter(self) -> (r: IntoIter<T>)
        requires
            self.wf(),
        ensures
            r@ == self@,
    {
        let Vec { buf, len: _ } = self;
        IntoIter::from_buf(buf)
    }

    /// Appends every element the iterator has left, growing as needed.  The
    /// iterator's length serves as a size estimate only: growth still goes
    /// element by element through the amortized policy.  The caller rules
    /// out a capacity overflow over the whole appended run.
    pub fn extend(&mut self, iter: IntoIter<T>)
        requires
            old(self).wf(),
            extend_fits(
                old(self)@.len() as int,
                old(self).cap(),
                iter@.len() as int,
                size_of::<T>(),
            ),
        ensures
            final(self).wf(),
            final(self)@ == old(self)@ + iter@,
            old(self).capacity_spec() <= final(self).capacity_spec(),
    {
        let ghost len0 = old(self)@.len() as int;
        let ghost n = iter@.len() as int;
        let ghost cap0 = old(self).cap();
        let ghost taken_from = iter@;
        let mut it = iter;
        loop
            invariant
                self.wf(),
                taken_from == iter@,
                self@ + it@ == old(self)@ + taken_from,
                self@.len() + it@.len() == len0 + n,
                len0 <= self@.len(),
                old(self).capacity_spec() <= self.capacity_spec(),
                self.cap() <= cap_bound(cap0, self@.len() as int, size_of::<T>()),
                extend_fits(len0, cap0, n, size_of::<T>()),
            decreases it@.len(),
        {
            let element = match it.next() {
                Some(e) => e,
                None => {
                    proof {
                        assert(it@ =~= Seq::<T>::empty());
                        assert(self@ + it@ =~= self@);
                        assert(self@ =~= old(self)@ + taken_from);
                    }
                    return;
                },
            };
            proof {
                assert(self@.push(element) + it@ =~= old(self)@ + taken_from);
                lemma_extend_push_fits(
                    len0,
                    cap0,
                    n,
                    self@.len() as int,
                    self.cap(),
                    size_of::<T>(),
                );
            }
            self.push(element);
        }
    }
}

impl<T> Vec<T> {
    /// Collects what an owning iterator has left into a fresh array.  The
    /// iterator's length seeds the initial capacity as a hint, floored as
    /// a first growth would be; the elements then arrive one by one.  The
    /// caller rules out a capacity overflow over the whole run.
    pub fn from_iter(iter: IntoIter<T>) -> (r: Vec<T>)
        requires
            from_iter_fits(iter@.len() as int, size_of::<T>()),
        ensures
            r.wf(),
            r@ == iter@,
    {
        let ghost taken_from = iter@;
        let mut it = iter;
        let element = match it.next() {
            None => {
                let r = Vec::new();
                proof {
                    assert(r@ =~= taken_from);
                }
                return r;
            },
            Some(element) => element,
        };
        let lower = it.len();
        let floor = RawVec::<T>::min_cap_floor();
        let hinted = lower.saturating_add(1);
        let initial_capacity = if floor > hinted {
            floor
        } else {
            hinted
        };
        proof {
            lemma_initial_capacity_fits::<T>(taken_from.len() as int, initial_capacity as int);
        }
        let mut vector = Vec::with_capacity(initial_capacity);
        vector.push(element);
        vector.extend(it);
        proof {
            assert(vector@ =~= taken_from);
        }
        vector
    }
}

impl<T: Copy> Vec<T> {
    /// A fresh array holding a copy of every element of `s`, in order; the
    /// buffer is sized to the slice exactly.
    pub fn from_slice(s: &[T]) -> (r: Vec<T>)
        requires
            size_of::<T>() * s@.len() <= isize::MAX,
        ensures
            r.wf(),
            r@ == s@,
    {
        let n = s.len();
        let mut v = Vec::with_capacity(n);
        let mut i: usize = 0;
        while i < n
            invariant
                0 <= i <= n,
                n as int == s@.len(),
                size_of::<T>() * s@.len() <= isize::MAX,
                v.wf(),
                v@ == s@.subrange(0, i as int),
                v.cap() == if size_of::<T>() == 0 { 0int } else { n as int },
            decreases n - i,
        {
            v.push(s[i]);
            proof {
                assert(v@ =~= s@.subrange(0, i + 1 as int));
            }
            i = i + 1;
        }
        proof {
            assert(v@ =~= s@);
        }
        v
    }
}

/// When collecting `n` elements through `from_iter` stays clear of
/// capacity overflow: the seeded capacity and every growth past it stay
/// within `isize::MAX` bytes.
pub open spec fn from_iter_fits(n: int, size: nat) -> bool {
    &&& n <= usize::MAX
    &&& size * cap_bound(seeded_cap(n, size), n, size) <= isize::MAX
}

/// The capacity `from_iter` seeds from an iterator of `n` elements: the
/// length hint, never under the growth floor.
pub open spec fn seeded_cap(n: int, size: nat) -> int {
    if min_non_zero_cap(size) > n {
        min_non_zero_cap(size)
    } else {
        n
    }
}

/// The seeded capacity itself fits whenever the whole collecting run does.
proof fn lemma_initial_capacity_fits<T>(n: int, initial: int)
    requires
        from_iter_fits(n, size_of::<T>()),
        1 <= n,
        initial == seeded_cap(n, size_of::<T>()),
    ensures
        size_of::<T>() * initial <= isize::MAX,
        extend_fits(1, initial, n - 1, size_of::<T>()),
{
    let size = size_of::<T>();
    assert(initial <= cap_bound(initial, n, size));
    assert(size * initial <= size * cap_bound(initial, n, size)) by (nonlinear_arith)
        requires
            size >= 0,
            0 <= initial <= cap_bound(initial, n, size),
    ;
}

/// The largest stored capacity the amortized policy can reach while an
/// array of current length `len` that started from capacity `cap0` keeps
/// growing one push at a time.
pub open spec fn cap_bound(cap0: int, len: int, size: nat) -> int {
    let by_len = if 2 * len > min_non_zero_cap(size) {
        2 * len
    } else {
        min_non_zero_cap(size)
    };
    if cap0 > by_len {
        cap0
    } else {
        by_len
    }
}

/// When a run of `n` pushes onto an array of length `len0` and stored
/// capacity `cap0` stays clear of capacity overflow throughout.
pub open spec fn extend_fits(len0: int, cap0: int, n: int, size: nat) -> bool {
    &&& len0 + n <= usize::MAX
    &&& size * cap_bound(cap0, len0 + n, size) <= isize::MAX
}

/// Round-trip law: inserting `value` at `index` and then removing at the
/// same index hands the contents back unchanged.  `Vec::insert` and
/// `Vec::remove` ensure exactly these sequence operations on the view, so
/// this law carries over to any array the two are applied to in turn.
pub proof fn lemma_insert_remove_roundtrip<T>(s: Seq<T>, index: int, value: T)
    requires
        0 <= index <= s.len(),
    ensures
        s.insert(index, value).remove(index) == s,
{
    assert(s.insert(index, value).remove(index) =~= s);
}

/// One operation of a push/pop run.
pub enum VecOp {
    Push,
    Pop,
}

/// The capacity as reported for a stored capacity `cap`: unbounded for a
/// zero-sized element type.
pub open spec fn reported_cap(cap: int, size: nat) -> int {
    if size == 0 {
        usize::MAX as int
    } else {
        cap
    }
}

/// One step of the length-and-capacity evolution, exactly as the `ensures`
/// of `push` and `pop` describe it: a push adds one to the length and grows
/// by the amortized policy just when the length has reached the reported
/// capacity; a pop takes one off a non-empty array and never touches the
/// capacity.
pub open spec fn step_op(len: int, cap: int, op: VecOp, size: nat) -> (int, int) {
    match op {
        VecOp::Push => (
            len + 1,
            if len == reported_cap(cap, size) {
                grown_cap(cap, len, 1, size)
            } else {
                cap
            },
        ),
        VecOp::Pop => (if len > 0 { len - 1 } else { len }, cap),
    }
}

/// The (length, stored capacity) pair after a whole run of operations.
pub open spec fn run_ops(len: int, cap: int, ops: Seq<VecOp>, size: nat) -> (int, int)
    decreases ops.len(),
{
    if ops.len() == 0 {
        (len, cap)
    } else {
        let mid = run_ops(len, cap, ops.drop_last(), size);
        step_op(mid.0, mid.1, ops.last(), size)
    }
}

/// How many of the operations are pushes.
pub open spec fn count_pushes(ops: Seq<VecOp>) -> int
    decreases ops.len(),
{
    if ops.len() == 0 {
        0
    } else {
        count_pushes(ops.drop_last()) + if ops.last() is Push {
            1int
        } else {
            0int
        }
    }
}

/// How many of the operations are pops.
pub open spec fn count_pops(ops: Seq<VecOp>) -> int
    decreases ops.len(),
{
    if ops.len() == 0 {
        0
    } else {
        count_pops(ops.drop_last()) + if ops.last() is Pop {
            1int
        } else {
            0int
        }
    }
}

/// For every run of push and pop operations in which no pop lands on an
/// empty array, the final length is the starting length plus the pushes
/// minus the pops, and the capacity never decreases along the way.
pub proof fn lemma_push_pop_run(len: int, cap: int, ops: Seq<VecOp>, size: nat)
    requires
        0 <= len,
        0 <= cap,
        forall|i: int|
            0 <= i < ops.len() && ops[i] is Pop ==> run_ops(len, cap, #[trigger] ops.take(i), size).0
                > 0,
    ensures
        run_ops(len, cap, ops, size).0 == len + count_pushes(ops) - count_pops(ops),
        run_ops(len, cap, ops, size).1 >= cap,
    decreases ops.len(),
{
    if ops.len() > 0 {
        let head = ops.drop_last();
        assert forall|i: int| 0 <= i < head.len() && head[i] is Pop implies run_ops(
            len,
            cap,
            #[trigger] head.take(i),
            size,
        ).0 > 0 by {
            assert(head.take(i) =~= ops.take(i));
            assert(ops[i] is Pop);
        }
        lemma_push_pop_run(len, cap, head, size);
        let mid = run_ops(len, cap, head, size);
        if ops.last() is Pop {
            assert(ops.take(ops.len() - 1) =~= head);
            assert(run_ops(len, cap, ops.take(ops.len() - 1), size).0 > 0);
        } else {
            if mid.0 == reported_cap(mid.1, size) {
                assert(grown_cap(mid.1, mid.0, 1, size) >= mid.1);
            }
        }
    }
}

/// A run of nothing but pushes.
pub open spec fn all_pushes(k: int) -> Seq<VecOp> {
    Seq::new(k as nat, |i: int| VecOp::Push)
}

/// Growth law for one-byte elements: pushing `k` elements onto an empty,
/// unallocated array leaves the length at `k` and runs the capacity through
/// 0, 8, 16, 32, ...: always at least the length, zero only before the
/// first push, and otherwise eight doubled some number of times.
pub proof fn lemma_growth_from_empty(k: int)
    requires
        0 <= k,
    ensures
        run_ops(0, 0, all_pushes(k), 1).0 == k,
        run_ops(0, 0, all_pushes(k), 1).1 >= k,
        k == 0 ==> run_ops(0, 0, all_pushes(k), 1).1 == 0,
        k > 0 ==> exists|j: nat| run_ops(0, 0, all_pushes(k), 1).1 == 8 * vstd::arithmetic::power2::pow2(j),
    decreases k,
{
    if k > 0 {
        assert(all_pushes(k).drop_last() =~= all_pushes(k - 1));
        lemma_growth_from_empty(k - 1);
        let mid = run_ops(0, 0, all_pushes(k - 1), 1);
        if k == 1 {
            assert(mid.1 == 0);
            vstd::arithmetic::power2::lemma2_to64();
            assert(run_ops(0, 0, all_pushes(k), 1).1 == 8 * vstd::arithmetic::power2::pow2(0));
        } else {
            let j = choose|j: nat| mid.1 == 8 * vstd::arithmetic::power2::pow2(j);
            vstd::arithmetic::power2::lemma_pow2_pos(j);
            if mid.0 == mid.1 {
                vstd::arithmetic::power2::lemma_pow2_unfold(j + 1);
                assert(grown_cap(mid.1, mid.0, 1, 1) == 2 * mid.1);
                assert(run_ops(0, 0, all_pushes(k), 1).1 == 8 * vstd::arithmetic::power2::pow2(
                    j + 1,
                ));
            } else {
                assert(run_ops(0, 0, all_pushes(k), 1).1 == 8 * vstd::arithmetic::power2::pow2(j));
            }
        }
    }
}

/// A zero-sized element type reports an unbounded capacity at every point
/// of a push run, and the length still counts up one per push.
pub proof fn lemma_zst_unbounded(k: int)
    requires
        0 <= k,
    ensures
        run_ops(0, 0, all_pushes(k), 0).0 == k,
        reported_cap(run_ops(0, 0, all_pushes(k), 0).1, 0) == usize::MAX,
    decreases k,
{
    if k > 0 {
        assert(all_pushes(k).drop_last() =~= all_pushes(k - 1));
        lemma_zst_unbounded(k - 1);
    }
}

/// One push inside such a run neither overflows nor escapes the capacity
/// bound: if the whole run fits, the next push's growth request, which only
/// ever happens when the length has caught up with the stored capacity, is
/// safe and keeps the stored capacity under `cap_bound` of the new length.
proof fn lemma_extend_push_fits(len0: int, cap0: int, n: int, len: int, cap: int, size: nat)
    requires
        extend_fits(len0, cap0, n, size),
        len0 <= len < len0 + n,
        0 <= cap <= cap_bound(cap0, len, size),
        0 <= len,
    ensures
        size != 0 && cap == len ==> !grow_overflows(cap, len, 1, size) && grown_cap(
            cap,
            len,
            1,
            size,
        ) <= cap_bound(cap0, len + 1, size),
        cap <= cap_bound(cap0, len + 1, size),
{
    if size != 0 && cap == len {
        let grown = grown_cap(cap, len, 1, size);
        let bound_next = cap_bound(cap0, len + 1, size);
        assert(grown <= bound_next);
        assert(bound_next <= cap_bound(cap0, len0 + n, size));
        assert(size * grown <= size * cap_bound(cap0, len0 + n, size)) by (nonlinear_arith)
            requires
                size >= 1,
                0 <= grown <= cap_bound(cap0, len0 + n, size),
        ;
    }
}

} // verus!
