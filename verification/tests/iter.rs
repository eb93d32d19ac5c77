use std::cell::Cell as StdCell;
use std::rc::Rc;
use structures::vector::IntoIter;
use structures::vector::Vec;

#[test]
fn iter_both_ends() {
    let mut v = Vec::<&str>::new();
    for s in ["a1", "a2", "a3", "b1", "b2", "b3"] {
        v.push(s);
    }
    let mut iter = v.into_iter();
    assert_eq!(iter.next(), Some("a1"));
    assert_eq!(iter.next_back(), Some("b3"));
    assert_eq!(iter.next(), Some("a2"));
    assert_eq!(iter.next_back(), Some("b2"));
    assert_eq!(iter.next(), Some("a3"));
    assert_eq!(iter.next_back(), Some("b1"));
    assert_eq!(iter.next(), None);
    assert_eq!(iter.next_back(), None);
}

#[test]
fn iter_exhaustion_is_permanent() {
    let mut v = Vec::<i32>::new();
    v.push(1);
    let mut iter = v.into_iter();
    assert_eq!(iter.next(), Some(1));
    assert_eq!(iter.next(), None);
    assert_eq!(iter.next_back(), None);
    assert_eq!(iter.next(), None);
}

#[test]
fn iter_len_and_slice() {
    let mut v = Vec::<i32>::new();
    for x in [1, 2, 3, 4] {
        v.push(x);
    }
    let mut iter = v.into_iter();
    assert_eq!(iter.len(), 4);
    assert_eq!(iter.as_slice(), &[1, 2, 3, 4]);
    iter.next();
    iter.next_back();
    assert_eq!(iter.as_slice(), &[2, 3]);
    assert_eq!(iter.count(), 2);
}

#[test]
fn iter_default_is_empty() {
    let mut iter: IntoIter<u8> = Default::default();
    assert_eq!(iter.len(), 0);
    assert_eq!(iter.next(), None);
}

/// A probe that counts how many times it is destroyed, so leaks and double
/// destruction both show up in the tally.
struct Probe {
    tally: Rc<StdCell<u32>>,
}

impl Drop for Probe {
    fn drop(&mut self) {
        self.tally.set(self.tally.get() + 1);
    }
}

/// Dropping the owning iterator after consuming only the front half must
/// destroy the back half exactly once each: six probes, six destructions,
/// none skipped and none repeated.
#[test]
fn iter_drop_half() {
    let tally = Rc::new(StdCell::new(0u32));
    let mut v = Vec::<Probe>::new();
    for _ in 0..6 {
        v.push(Probe { tally: Rc::clone(&tally) });
    }
    let mut iter = v.into_iter();
    for _ in 0..3 {
        let yielded = iter.next();
        assert!(yielded.is_some());
        drop(yielded);
    }
    assert_eq!(tally.get(), 3);
    drop(iter);
    assert_eq!(tally.get(), 6);
}

/// An array dropped outright destroys every live element exactly once.
#[test]
fn vec_drop_all() {
    let tally = Rc::new(StdCell::new(0u32));
    let mut v = Vec::<Probe>::new();
    for _ in 0..5 {
        v.push(Probe { tally: Rc::clone(&tally) });
    }
    assert_eq!(tally.get(), 0);
    drop(v);
    assert_eq!(tally.get(), 5);
}

/// `clear` destroys every live element exactly once and nothing else.
#[test]
fn vec_clear_drops() {
    let tally = Rc::new(StdCell::new(0u32));
    let mut v = Vec::<Probe>::new();
    for _ in 0..4 {
        v.push(Probe { tally: Rc::clone(&tally) });
    }
    v.clear();
    assert_eq!(tally.get(), 4);
    drop(v);
    assert_eq!(tally.get(), 4);
}
