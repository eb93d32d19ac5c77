use structures::pointer::RefCell;

#[test]
fn ref_and_refmut_have_sensible_show() {
    let mut refcell = RefCell::new("foo");

    let refcell_refmut = refcell.borrow_mut();
    assert_eq!(format!("{}", refcell.get_mut()), "foo");
    assert!(format!("{:?}", refcell.get_mut()).contains("foo"));
    refcell.release_mut(refcell_refmut);

    let refcell_ref = refcell.borrow();
    assert_eq!(format!("{}", refcell.peek()), "foo");
    assert!(format!("{:?}", refcell.peek()).contains("foo"));
    refcell.release(refcell_ref);
}

#[test]
fn double_imm_borrow() {
    let mut x = RefCell::new(0);
    let _b1 = x.borrow();
    x.borrow();
}

#[test]
fn no_mut_then_imm_borrow() {
    let mut x = RefCell::new(0);
    let _b1 = x.borrow_mut();
    assert!(x.try_borrow().is_err());
}

#[test]
fn no_imm_then_borrow_mut() {
    let mut x = RefCell::new(0);
    let _b1 = x.borrow();
    assert!(x.try_borrow_mut().is_err());
}

#[test]
fn no_double_borrow_mut() {
    let mut x = RefCell::new(0);
    let probe = x.try_borrow();
    assert!(probe.is_ok());
    x.release(probe.unwrap());
    let _b1 = x.borrow_mut();
    assert!(x.try_borrow().is_err());
}

#[test]
fn imm_release_borrow_mut() {
    let mut x = RefCell::new(0);
    let b1 = x.borrow();
    x.release(b1);
    x.borrow_mut();
}

#[test]
fn mut_release_borrow_mut() {
    let mut x = RefCell::new(0);
    let b1 = x.borrow_mut();
    x.release_mut(b1);
    x.borrow();
}

#[test]
fn double_borrow_single_release_no_borrow_mut() {
    let mut x = RefCell::new(0);
    let _b1 = x.borrow();
    let b2 = x.borrow();
    x.release(b2);
    let probe = x.try_borrow();
    assert!(probe.is_ok());
    x.release(probe.unwrap());
    assert!(x.try_borrow_mut().is_err());
}

#[test]
#[should_panic]
fn discard_doesnt_unborrow() {
    let mut x = RefCell::new(0);
    let _b = x.borrow();
    let _ = _b;
    let _b = x.borrow_mut();
}

#[test]
#[should_panic]
fn refcell_swap_borrows() {
    let mut x = RefCell::new(0);
    let _b = x.borrow();
    let mut y = RefCell::new(1);
    x.swap(&mut y);
}

#[test]
#[should_panic]
fn refcell_replace_borrows() {
    let mut x = RefCell::new(0);
    let _b = x.borrow();
    x.replace(1);
}

#[test]
fn refcell_format() {
    let mut name = RefCell::new("rust");
    let mut what = RefCell::new("rocks");
    let name_guard = name.borrow();
    let what_guard = what.borrow();
    let msg = format!("{name} {}", *what.peek(), name = *name.peek());
    assert_eq!(msg, "rust rocks".to_string());
    name.release(name_guard);
    what.release(what_guard);
}

#[test]
fn refcell_default() {
    let mut cell: RefCell<u64> = Default::default();
    let guard = cell.borrow();
    assert_eq!(0, *cell.peek());
    cell.release(guard);
}

#[test]
fn refcell_unsized() {
    let mut cell: RefCell<[i32; 3]> = RefCell::new([1, 2, 3]);
    {
        let guard = cell.borrow_mut();
        let b = cell.get_mut();
        b[0] = 4;
        b[2] = 5;
        cell.release_mut(guard);
    }
    let comp: [i32; 3] = [4, 2, 5];
    let guard = cell.borrow();
    assert_eq!(*cell.peek(), comp);
    cell.release(guard);
}

#[test]
fn refcell_ref_coercion() {
    let mut cell: RefCell<[i32; 3]> = RefCell::new([1, 2, 3]);
    {
        let guard = cell.borrow_mut();
        cell.get_mut()[0] = 4;
        cell.get_mut()[2] = 5;
        cell.release_mut(guard);
    }
    {
        let comp: [i32; 3] = [4, 2, 5];
        let guard = cell.borrow();
        assert_eq!(*cell.peek(), comp);
        let second = cell.borrow();
        assert_eq!(*cell.peek(), comp);
        cell.release(second);
        cell.release(guard);
    }
}

#[test]
fn refcell_as_ptr() {
    let mut r1: RefCell<usize> = RefCell::new(0);
    *r1.get_mut() = 1;
    assert_eq!(1, *r1.peek());

    let mut r2: RefCell<usize> = RefCell::new(0);
    let guard = r2.borrow_mut();
    *r2.get_mut() = 1;
    r2.release_mut(guard);
    assert_eq!(1, *r2.peek());
}

#[test]
fn refcell_replace_and_take() {
    let mut cell = RefCell::new(5u32);
    assert_eq!(5, cell.replace(9));
    assert_eq!(9, cell.take());
    assert_eq!(0, *cell.peek());
}

#[test]
fn refcell_replace_with() {
    let mut cell = RefCell::new(10u32);
    let previous = cell.replace_with(|v| *v + 1);
    assert_eq!(10, previous);
    assert_eq!(11, *cell.peek());
}

#[test]
fn refcell_swap_values() {
    let mut a = RefCell::new(1);
    let mut b = RefCell::new(2);
    a.swap(&mut b);
    assert_eq!(2, *a.peek());
    assert_eq!(1, *b.peek());
}

#[test]
fn refcell_into_inner() {
    let cell = RefCell::new("kept".to_owned());
    assert_eq!("kept".to_owned(), cell.into_inner());
}

/// The readers-exclude-writer scenario: with several shared claims
/// outstanding, an exclusive acquisition fails; once every one of them is
/// released, it succeeds, and while it is outstanding everything fails.
#[test]
fn refcell_readers_then_writer() {
    let mut x = RefCell::new(0);
    let g1 = x.borrow();
    let g2 = x.borrow();
    let g3 = x.borrow();
    assert!(x.try_borrow_mut().is_err());
    x.release(g1);
    assert!(x.try_borrow_mut().is_err());
    x.release(g2);
    x.release(g3);
    let w = x.try_borrow_mut();
    assert!(w.is_ok());
    assert!(x.try_borrow().is_err());
    assert!(x.try_borrow_mut().is_err());
    x.release_mut(w.unwrap());
    assert!(x.try_borrow().is_ok());
}
