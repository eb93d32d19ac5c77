//! The borrow-tracked cell: one value slot and one signed borrow counter.
//! The counter is 0 when the value is unshared, `n > 0` while `n` shared
//! claims are outstanding, and -1 while one exclusive claim is outstanding;
//! no other negative value ever occurs.  Acquisitions that the state machine
//! forbids fail, fatally through `borrow`/`borrow_mut` and recoverably
//! through the `try_` forms.
//!
//! A guard here is a claim token: acquiring one moves the counter, and the
//! token must be handed back through `release`/`release_mut` to move it
//! back.  The compile-time exclusivity of `&mut self` already rules out
//! aliased mutation; the counter re-creates the run-time discipline that
//! scoped guards would enforce, and the proofs pin it down.  A token that
//! is dropped instead of released keeps its claim forever, as a leaked
//! scoped guard would.

use vstd::prelude::*;
use super::cell::Cell;

verus! {

/// The borrow flag: 0 unshared, positive shared, -1 exclusive.
pub type BorrowFlag = isize;

/// The flag value of an unshared cell.
pub const UNSHARED: BorrowFlag = 0;

/// Whether a flag value records outstanding shared claims.
pub open spec fn spec_is_shared(borrow: int) -> bool {
    borrow > 0
}

/// Whether a flag value records an outstanding exclusive claim.
pub open spec fn spec_is_exclusive(borrow: int) -> bool {
    borrow < 0
}

/// Whether a flag value records outstanding shared claims.
fn is_shared(borrow: BorrowFlag) -> (r: bool)
    ensures
        r == spec_is_shared(borrow as int),
{
    borrow > 0
}

/// A shared acquisition was refused: an exclusive claim is outstanding.
#[derive(Debug)]
pub struct BorrowError {}

/// An exclusive acquisition was refused: some claim is outstanding.
#[derive(Debug)]
pub struct BorrowMutError {}

/// A live shared claim on a cell's borrow counter.
pub struct BorrowRef {}

/// A live exclusive claim on a cell's borrow counter.
pub struct BorrowRefMut {}

impl BorrowRef {
    /// Takes one shared claim on `borrow` if the state machine allows it:
    /// the counter must be neither exclusive nor saturated.  Both are
    /// checked at once by asking whether the incremented flag lands in the
    /// shared range, wrapping on overflow.
    pub fn new(borrow: &mut Cell<BorrowFlag>) -> (r: Option<BorrowRef>)
        ensures
            0 <= old(borrow)@ < BorrowFlag::MAX ==> r is Some && final(borrow)@ == old(borrow)@
                + 1,
            !(0 <= old(borrow)@ < BorrowFlag::MAX) ==> r is None && final(borrow)@ == old(
                borrow,
            )@,
    {
        let b = borrow.get().wrapping_add(1);
        if is_shared(b) {
            borrow.set(b);
            Some(BorrowRef {})
        } else {
            None
        }
    }
}

impl BorrowRefMut {
    /// Takes the one exclusive claim on `borrow` if the cell is unshared.
    pub fn new(borrow: &mut Cell<BorrowFlag>) -> (r: Option<BorrowRefMut>)
        ensures
            old(borrow)@ == UNSHARED ==> r is Some && final(borrow)@ == UNSHARED - 1,
            old(borrow)@ != UNSHARED ==> r is None && final(borrow)@ == old(borrow)@,
    {
        if borrow.get() == UNSHARED {
            borrow.set(UNSHARED - 1);
            Some(BorrowRefMut {})
        } else {
            None
        }
    }
}

/// A guard recording one shared, read-only claim on a borrow-tracked cell.
pub struct Ref {
    borrow: BorrowRef,
}

/// A guard recording the one exclusive, read-write claim on a
/// borrow-tracked cell.
pub struct RefMut {
    borrow: BorrowRefMut,
}

/// A single-value container enforcing "many readers or one writer" with a
/// runtime counter, for single-owner, single-thread use.
pub struct RefCell<T> {
    value: T,
    borrow: Cell<BorrowFlag>,
}

impl<T> View for RefCell<T> {
    type V = T;

    /// The value the cell holds.
    closed spec fn view(&self) -> T {
        self.value
    }
}

impl<T> RefCell<T> {
    /// The current borrow counter.
    pub closed spec fn flag(&self) -> int {
        self.borrow@ as int
    }

    /// The counter never goes under -1: the only negative state is the one
    /// exclusive claim.
    pub open spec fn wf(&self) -> bool {
        -1 <= self.flag()
    }

    /// Wraps `value`; no claim is outstanding.
    pub fn new(value: T) -> (r: Self)
        ensures
            r.wf(),
            r@ == value,
            r.flag() == UNSHARED,
    {
        RefCell { value, borrow: Cell::new(UNSHARED) }
    }

    /// Consumes the cell and hands the value back.  Ownership makes any
    /// leftover claim tokens moot: they can never reach this cell again.
    pub fn into_inner(self) -> (r: T)
        ensures
            r == self@,
    {
        let RefCell { value, borrow: _ } = self;
        value
    }

    /// Acquires a shared claim if no exclusive claim is outstanding and the
    /// counter is not saturated; the counter goes up by one.
    pub fn try_borrow(&mut self) -> (r: Result<Ref, BorrowError>)
        requires
            old(self).wf(),
        ensures
            final(self).wf(),
            final(self)@ == old(self)@,
            r is Ok <==> 0 <= old(self).flag() < BorrowFlag::MAX,
            r is Ok ==> final(self).flag() == old(self).flag() + 1,
            r is Err ==> final(self).flag() == old(self).flag(),
    {
        match BorrowRef::new(&mut self.borrow) {
            Some(borrow) => Ok(Ref { borrow }),
            None => Err(BorrowError {}),
        }
    }

    /// Acquires a shared claim; a refusal is a fatal borrow conflict, which
    /// the caller rules out.
    pub fn borrow(&mut self) -> (r: Ref)
        requires
            old(self).wf(),
            0 <= old(self).flag() < BorrowFlag::MAX,
        ensures
            final(self).wf(),
            final(self)@ == old(self)@,
            final(self).flag() == old(self).flag() + 1,
    {
        match self.try_borrow() {
            Ok(guard) => guard,
            Err(_) => vstd::pervasive::unreached(),
        }
    }

    /// Acquires the exclusive claim if the cell is unshared; the counter
    /// goes to -1.
    pub fn try_borrow_mut(&mut self) -> (r: Result<RefMut, BorrowMutError>)
        requires
            old(self).wf(),
        ensures
            final(self).wf(),
            final(self)@ == old(self)@,
            r is Ok <==> old(self).flag() == UNSHARED,
            r is Ok ==> final(self).flag() == UNSHARED - 1,
            r is Err ==> final(self).flag() == old(self).flag(),
    {
        match BorrowRefMut::new(&mut self.borrow) {
            Some(borrow) => Ok(RefMut { borrow }),
            None => Err(BorrowMutError {}),
        }
    }

    /// Acquires the exclusive claim; a refusal is a fatal borrow conflict,
    /// which the caller rules out.
    pub fn borrow_mut(&mut self) -> (r: RefMut)
        requires
            old(self).wf(),
            old(self).flag() == UNSHARED,
        ensures
            final(self).wf(),
            final(self)@ == old(self)@,
            final(self).flag() == UNSHARED - 1,
    {
        match self.try_borrow_mut() {
            Ok(guard) => guard,
            Err(_) => vstd::pervasive::unreached(),
        }
    }

    /// Hands a shared claim back; the counter goes down by one.
    pub fn release(&mut self, guard: Ref)
        requires
            old(self).wf(),
            spec_is_shared(old(self).flag()),
        ensures
            final(self).wf(),
            final(self)@ == old(self)@,
            final(self).flag() == old(self).flag() - 1,
    {
        let Ref { borrow: _ } = guard;
        let b = self.borrow.get();
        self.borrow.set(b - 1);
    }

    /// Hands the exclusive claim back; the counter returns to unshared.
    pub fn release_mut(&mut self, guard: RefMut)
        requires
            old(self).wf(),
            spec_is_exclusive(old(self).flag()),
        ensures
            final(self).wf(),
            final(self)@ == old(self)@,
            final(self).flag() == UNSHARED,
    {
        let RefMut { borrow: _ } = guard;
        self.borrow.set(UNSHARED);
    }

    /// Read-only access to the held value.  A claim token from `borrow` is
    /// the discipline's way in; the counter itself only forbids reading
    /// while an exclusive claim is outstanding.
    pub fn peek(&self) -> (r: &T)
        requires
            !spec_is_exclusive(self.flag()),
        ensures
            *r == self@,
    {
        &self.value
    }

    /// Exclusive access to the held value through the exclusive handle;
    /// the handle's own exclusivity stands in for a claim, so the counter
    /// is not consulted.
    pub fn get_mut(&mut self) -> (r: &mut T)
        ensures
            *r == old(self)@,
            final(self)@ == *final(r),
            final(self).flag() == old(self).flag(),
    {
        &mut self.value
    }

    /// Overwrites the held value and hands the previous one back, taking
    /// the exclusive claim for the duration; an outstanding claim makes
    /// this a fatal borrow conflict, which the caller rules out.
    pub fn replace(&mut self, t: T) -> (r: T)
        requires
            old(self).wf(),
            old(self).flag() == UNSHARED,
        ensures
            final(self).wf(),
            r == old(self)@,
            final(self)@ == t,
            final(self).flag() == UNSHARED,
    {
        let guard = self.borrow_mut();
        let mut t = t;
        core::mem::swap(&mut self.value, &mut t);
        self.release_mut(guard);
        t
    }

    /// Computes a replacement from the current value, stores it, and hands
    /// the previous value back, under the exclusive claim.
    pub fn replace_with<F: FnOnce(&T) -> T>(&mut self, f: F) -> (r: T)
        requires
            old(self).wf(),
            old(self).flag() == UNSHARED,
            call_requires(f, (&old(self)@,)),
        ensures
            final(self).wf(),
            r == old(self)@,
            call_ensures(f, (&old(self)@,), final(self)@),
            final(self).flag() == UNSHARED,
    {
        let guard = self.borrow_mut();
        let mut replacement = f(&self.value);
        core::mem::swap(&mut self.value, &mut replacement);
        self.release_mut(guard);
        replacement
    }

    /// Exchanges the contents of two cells, taking both exclusive claims
    /// for the duration; an outstanding claim on either side is a fatal
    /// borrow conflict, which the caller rules out.
    pub fn swap(&mut self, other: &mut RefCell<T>)
        requires
            old(self).wf(),
            old(other).wf(),
            old(self).flag() == UNSHARED,
            old(other).flag() == UNSHARED,
        ensures
            final(self).wf(),
            final(other).wf(),
            final(self)@ == old(other)@,
            final(other)@ == old(self)@,
            final(self).flag() == UNSHARED,
            final(other).flag() == UNSHARED,
    {
        let guard = self.borrow_mut();
        let other_guard = other.borrow_mut();
        core::mem::swap(&mut self.value, &mut other.value);
        self.release_mut(guard);
        other.release_mut(other_guard);
    }
}

impl<T: Default> RefCell<T> {
    /// Replaces the held value with the type's default and hands the
    /// previous one back, under the exclusive claim.
    pub fn take(&mut self) -> (r: T)
        requires
            old(self).wf(),
            old(self).flag() == UNSHARED,
        ensures
            final(self).wf(),
            r == old(self)@,
            final(self).flag() == UNSHARED,
    {
        self.replace(T::default())
    }
}

impl<T: Default> Default for RefCell<T> {
    /// A cell holding the contained type's default value, unshared.
    fn default() -> Self {
        RefCell::new(T::default())
    }
}

impl Ref {
    /// Records one more shared claim against the same counter, for another
    /// concurrent reader; the counter must not be saturated.
    pub fn clone<T>(_orig: &Ref, cell: &mut RefCell<T>) -> (r: Ref)
        requires
            old(cell).wf(),
            spec_is_shared(old(cell).flag()),
            old(cell).flag() < BorrowFlag::MAX,
        ensures
            final(cell).wf(),
            final(cell)@ == old(cell)@,
            final(cell).flag() == old(cell).flag() + 1,
    {
        cell.borrow()
    }
}

/// One acquisition or release of a claim on the borrow counter.
pub enum ClaimOp {
    AcquireShared,
    ReleaseShared,
    AcquireExclusive,
    ReleaseExclusive,
}

/// One counter transition, exactly as the `ensures` of `try_borrow`,
/// `try_borrow_mut`, `release` and `release_mut` describe it: an
/// acquisition the state machine forbids leaves the counter alone, and the
/// releases undo their acquisitions.
pub open spec fn step_claim(flag: int, op: ClaimOp) -> int {
    match op {
        ClaimOp::AcquireShared => if 0 <= flag < BorrowFlag::MAX {
            flag + 1
        } else {
            flag
        },
        ClaimOp::ReleaseShared => if flag > 0 {
            flag - 1
        } else {
            flag
        },
        ClaimOp::AcquireExclusive => if flag == UNSHARED {
            -1
        } else {
            flag
        },
        ClaimOp::ReleaseExclusive => if flag == -1 {
            0
        } else {
            flag
        },
    }
}

/// The counter after a whole run of claim operations.
pub open spec fn run_claims(flag: int, ops: Seq<ClaimOp>) -> int
    decreases ops.len(),
{
    if ops.len() == 0 {
        flag
    } else {
        step_claim(run_claims(flag, ops.drop_last()), ops.last())
    }
}

/// `n` copies of the same claim operation.
pub open spec fn repeated(op: ClaimOp, n: int) -> Seq<ClaimOp> {
    Seq::new(n as nat, |i: int| op)
}

/// Readers exclude the writer: after `n` shared claims on an unshared cell
/// the counter stands at `n`, and while it does, an exclusive acquisition
/// is refused; once all `n` are released the counter is back to unshared
/// and the exclusive acquisition goes through.
pub proof fn lemma_readers_block_writer(n: int)
    requires
        0 <= n <= BorrowFlag::MAX,
    ensures
        run_claims(UNSHARED as int, repeated(ClaimOp::AcquireShared, n)) == n,
        n > 0 ==> step_claim(n, ClaimOp::AcquireExclusive) == n && spec_is_shared(n),
        run_claims(n, repeated(ClaimOp::ReleaseShared, n)) == UNSHARED,
        step_claim(UNSHARED as int, ClaimOp::AcquireExclusive) == -1,
{
    lemma_stacked_shared(UNSHARED as int, n);
    lemma_unstacked_shared(n);
}

/// The writer excludes everyone: while the exclusive claim is outstanding,
/// both a shared and a second exclusive acquisition are refused, and once
/// it is released both are allowed again.
pub proof fn lemma_writer_blocks_all()
    ensures
        step_claim(-1, ClaimOp::AcquireShared) == -1,
        step_claim(-1, ClaimOp::AcquireExclusive) == -1,
        spec_is_exclusive(-1),
        step_claim(-1, ClaimOp::ReleaseExclusive) == UNSHARED,
        step_claim(UNSHARED as int, ClaimOp::AcquireShared) == 1,
        step_claim(UNSHARED as int, ClaimOp::AcquireExclusive) == -1,
{
}

/// Shared claims stack one by one from any non-exclusive start that stays
/// under the saturation bound.
proof fn lemma_stacked_shared(flag: int, n: int)
    requires
        0 <= flag,
        0 <= n,
        flag + n <= BorrowFlag::MAX,
    ensures
        run_claims(flag, repeated(ClaimOp::AcquireShared, n)) == flag + n,
    decreases n,
{
    if n > 0 {
        assert(repeated(ClaimOp::AcquireShared, n).drop_last() =~= repeated(
            ClaimOp::AcquireShared,
            n - 1,
        ));
        lemma_stacked_shared(flag, n - 1);
    }
}

/// Shared claims unstack one by one down to the unshared state.
proof fn lemma_unstacked_shared(n: int)
    requires
        0 <= n,
    ensures
        run_claims(n, repeated(ClaimOp::ReleaseShared, n)) == 0,
    decreases n,
{
    if n > 0 {
        assert(repeated(ClaimOp::ReleaseShared, n).drop_last() =~= repeated(
            ClaimOp::ReleaseShared,
            n - 1,
        ));
        lemma_unstacked_shared_from(n, n - 1);
    }
}

/// Helper: releasing `k` of `n` outstanding shared claims leaves `n - k`.
proof fn lemma_unstacked_shared_from(n: int, k: int)
    requires
        0 <= k < n,
    ensures
        run_claims(n, repeated(ClaimOp::ReleaseShared, k)) == n - k,
    decreases k,
{
    if k > 0 {
        assert(repeated(ClaimOp::ReleaseShared, k).drop_last() =~= repeated(
            ClaimOp::ReleaseShared,
            k - 1,
        ));
        lemma_unstacked_shared_from(n, k - 1);
    }
}

/// The acquisition rules, stated once over every counter state: shared
/// claims stack while no exclusive claim is outstanding, an outstanding
/// exclusive claim refuses everything, and any outstanding claim refuses
/// the exclusive one.  These are exactly the `is Ok` conditions that
/// `try_borrow` and `try_borrow_mut` ensure.
pub proof fn lemma_borrow_state_machine(flag: int)
    requires
        -1 <= flag <= BorrowFlag::MAX,
    ensures
        spec_is_exclusive(flag) ==> flag == -1,
        spec_is_shared(flag) || flag == UNSHARED || spec_is_exclusive(flag),
        spec_is_exclusive(flag) ==> !(0 <= flag < BorrowFlag::MAX) && flag != UNSHARED,
        spec_is_shared(flag) ==> flag != UNSHARED,
        flag == UNSHARED ==> 0 <= flag < BorrowFlag::MAX,
{
}

} // verus!
