use structures::vector::RawVec;
use structures::vector::TryReserveError;
use structures::vector::Vec;

#[test]
fn reserve_push() {
    let mut rv = RawVec::<usize>::new();
    rv.reserve_for_push(0);
    assert_eq!(rv.capacity(), 4);
    rv.reserve_for_push(1);
    assert_eq!(rv.capacity(), 8);
    rv.reserve_for_push(2);
    assert_eq!(rv.capacity(), 16);
}

#[test]
fn raw_vec_reserve_push() {
    let mut rv = RawVec::<usize>::new();
    rv.reserve_for_push(0);
    assert_eq!(rv.capacity(), 4);
    rv.reserve_for_push(1);
    assert_eq!(rv.capacity(), 8);
    rv.reserve_for_push(2);
    assert_eq!(rv.capacity(), 16);
}

#[test]
fn reserve_exact() {
    let mut rv = RawVec::<usize>::new();
    rv.reserve_exact(0, 9);
    assert_eq!(rv.capacity(), 9);
    rv.reserve_for_push(9);
    assert_eq!(rv.capacity(), 18);
    rv.reserve_for_push(10);
    assert_eq!(rv.capacity(), 36);
    rv.reserve_exact(11, 30);
    assert_eq!(rv.capacity(), 41);
}

#[test]
fn raw_vec_reserve_exact() {
    let mut rv = RawVec::<usize>::new();
    rv.reserve_exact(0, 9);
    assert_eq!(rv.capacity(), 9);
    rv.reserve_for_push(9);
    assert_eq!(rv.capacity(), 18);
    rv.reserve_for_push(10);
    assert_eq!(rv.capacity(), 36);
    rv.reserve_exact(11, 30);
    assert_eq!(rv.capacity(), 41);
}

struct ZST;
const UMAX: usize = usize::MAX;

#[test]
fn vec_basic_test() {
    let mut v = Vec::<usize>::new();
    assert_eq!(v.capacity(), 0);
    v.push(0);
    assert_eq!(v.capacity(), 4);
    v.push(1);
    assert_eq!(v.len(), 2);
}

#[test]
fn vec_zst_test() {
    let mut v = Vec::<ZST>::new();
    assert_eq!((v.capacity(), v.len()), (UMAX, 0));
    v.push(ZST);
    assert_eq!((v.capacity(), v.len()), (UMAX, 1));
    for _ in 0..100 {
        v.push(ZST);
    }
    assert_eq!((v.capacity(), v.len()), (UMAX, 101));
}

#[test]
fn vec_cap_test() {
    let mut v = Vec::<usize>::new();
    for num in 0..16 {
        v.push(num);
    }
    assert_eq!((v.capacity(), v.len()), (16, 16));
    for num in 16..100 {
        v.push(num);
    }
    assert_eq!((v.capacity(), v.len()), (128, 100));
}

/// The one-byte growth law on concrete runs: capacities from empty run
/// through 8, 16, 32, ... and always hold the length.
#[test]
fn byte_growth_law() {
    let mut v = Vec::<u8>::new();
    let mut seen: std::vec::Vec<usize> = std::vec::Vec::new();
    for k in 0..33u8 {
        v.push(k);
        if !seen.contains(&v.capacity()) {
            seen.push(v.capacity());
        }
        assert!(v.capacity() >= v.len());
    }
    assert_eq!(seen, vec![8, 16, 32, 64]);
}

/// Length after a push/pop run is pushes minus pops, and capacity never
/// shrinks along the way.
#[test]
fn push_pop_run_length() {
    let mut v = Vec::<u32>::new();
    let mut cap_before: usize = v.capacity();
    for x in 0..10 {
        v.push(x);
        assert!(v.capacity() >= cap_before);
        cap_before = v.capacity();
    }
    for _ in 0..4 {
        assert!(v.pop().is_some());
        assert!(v.capacity() >= cap_before);
        cap_before = v.capacity();
    }
    assert_eq!(v.len(), 10 - 4);
    assert_eq!(v.pop(), Some(5));
    let mut empty = Vec::<u32>::new();
    assert_eq!(empty.pop(), None);
}

/// Inserting then removing at the same index hands the contents back.
#[test]
fn insert_remove_roundtrip() {
    let mut v = Vec::<i32>::new();
    for x in [10, 20, 30, 40] {
        v.push(x);
    }
    let cap = v.capacity();
    v.insert(2, 25);
    assert_eq!(v.as_slice(), &[10, 20, 25, 30, 40]);
    assert_eq!(v.remove(2), 25);
    assert_eq!(v.as_slice(), &[10, 20, 30, 40]);
    // the round trip restores the contents, not necessarily the capacity
    assert!(v.capacity() >= cap);
}

#[test]
fn insert_at_ends() {
    let mut v = Vec::<i32>::new();
    v.insert(0, 2);
    v.insert(0, 1);
    v.insert(2, 3);
    assert_eq!(v.as_slice(), &[1, 2, 3]);
    assert_eq!(v.remove(0), 1);
    assert_eq!(v.as_slice(), &[2, 3]);
}

/// `swap_remove` takes one off the length and moves exactly the last
/// element into the vacated slot; the neighbors keep their places.
#[test]
fn swap_remove_moves_last() {
    let mut v = Vec::<i32>::new();
    for x in [1, 2, 3, 4, 5] {
        v.push(x);
    }
    assert_eq!(v.swap_remove(1), 2);
    assert_eq!(v.as_slice(), &[1, 5, 3, 4]);
    assert_eq!(v.len(), 4);
    assert_eq!(v.swap_remove(3), 4);
    assert_eq!(v.as_slice(), &[1, 5, 3]);
}

#[test]
fn clear_keeps_capacity() {
    let mut v = Vec::<i32>::new();
    for x in 0..9 {
        v.push(x);
    }
    let cap = v.capacity();
    v.clear();
    assert_eq!(v.len(), 0);
    assert_eq!(v.capacity(), cap);
}

#[test]
fn vec_with_capacity() {
    let mut v = Vec::<u64>::with_capacity(10);
    assert_eq!(v.capacity(), 10);
    assert_eq!(v.len(), 0);
    for x in 0..10 {
        v.push(x);
    }
    assert_eq!(v.capacity(), 10);
    v.push(10);
    assert_eq!(v.capacity(), 20);
}

#[test]
fn vec_reserve_family() {
    let mut v = Vec::<u8>::new();
    v.reserve(3);
    assert_eq!(v.capacity(), 8);
    v.reserve_exact(20);
    assert_eq!(v.capacity(), 20);
    assert!(v.try_reserve(5).is_ok());
    assert_eq!(v.capacity(), 20);
    assert!(v.try_reserve_exact(25).is_ok());
    assert_eq!(v.capacity(), 25);
}

/// A request past the address-space-safe bound is a capacity overflow,
/// reported as such and leaving the buffer alone.
#[test]
fn try_reserve_overflow() {
    let mut v = Vec::<u64>::new();
    let r = v.try_reserve(usize::MAX);
    assert_eq!(r, Err(TryReserveError::CapacityOverflow));
    assert_eq!(v.capacity(), 0);
    let r = v.try_reserve_exact(usize::MAX / 4);
    assert_eq!(r, Err(TryReserveError::CapacityOverflow));
    assert_eq!(v.capacity(), 0);
}

#[test]
fn vec_extend_appends() {
    let mut v = Vec::<i32>::new();
    v.push(1);
    v.push(2);
    let mut tail = Vec::<i32>::new();
    tail.push(3);
    tail.push(4);
    tail.push(5);
    v.extend(tail.into_iter());
    assert_eq!(v.as_slice(), &[1, 2, 3, 4, 5]);
}

#[test]
fn vec_try_push() {
    let mut v = Vec::<u8>::new();
    assert!(v.try_push(1).is_ok());
    assert!(v.try_push(2).is_ok());
    assert_eq!(v.as_slice(), &[1, 2]);
    assert_eq!(v.capacity(), 8);
}

#[test]
fn vec_from_iter_collects() {
    let mut v = Vec::<i32>::new();
    for x in [1, 2, 3] {
        v.push(x);
    }
    let w = Vec::from_iter(v.into_iter());
    assert_eq!(w.as_slice(), &[1, 2, 3]);
    assert_eq!(w.capacity(), 4);
}

#[test]
fn vec_from_slice_copies() {
    let v = Vec::from_slice(&[9u8, 8, 7]);
    assert_eq!(v.as_slice(), &[9, 8, 7]);
    assert_eq!(v.capacity(), 3);
}

#[test]
fn vec_as_mut_slice_writes_through() {
    let mut v = Vec::<i32>::new();
    for x in [1, 2, 3] {
        v.push(x);
    }
    let s = v.as_mut_slice();
    s[1] = 20;
    assert_eq!(v.as_slice(), &[1, 20, 3]);
}

#[test]
fn vec_get_reads_elements() {
    let mut v = Vec::<i32>::new();
    v.push(6);
    v.push(7);
    assert_eq!(*v.get(0), 6);
    assert_eq!(*v.get(1), 7);
}
