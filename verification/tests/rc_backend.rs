use shared_ptr::rc::SharedPtr;
use shared_ptr::ISetNullWeak;
use std::cell::Cell;
use std::rc::Rc;

struct DropCounter {
    tag: i32,
    drops: Rc<Cell<i32>>,
}

impl Drop for DropCounter {
    fn drop(&mut self) {
        self.drops.set(self.drops.get() + 1);
    }
}

#[test]
fn zeroed_is_null_rc() {
    let p = SharedPtr::<i32>::zeroed();
    assert!(p.is_null());
    let d = SharedPtr::<i32>::default();
    assert!(d.is_null());
}

#[test]
fn new_is_occupied_rc() {
    let p = SharedPtr::new(5);
    assert!(!p.is_null());
    let h = p.deref();
    assert_eq!(**h, 5);
}

#[test]
fn write_on_empty_occupies_rc() {
    let mut p = SharedPtr::<i32>::zeroed();
    p.write(3);
    assert!(!p.is_null());
    assert_eq!(**p.deref(), 3);
}

#[test]
fn write_drops_old_payload_once_rc() {
    let drops: Rc<Cell<i32>> = Rc::new(Cell::new(0));
    let mut p = SharedPtr::new(DropCounter { tag: 1, drops: Rc::clone(&drops) });
    assert_eq!(drops.get(), 0);
    p.write(DropCounter { tag: 2, drops: Rc::clone(&drops) });
    assert_eq!(drops.get(), 1);
    assert_eq!(p.deref().tag, 2);
    p.set_null();
    assert_eq!(drops.get(), 2);
}

#[test]
fn set_null_drops_once_and_empties_rc() {
    let drops: Rc<Cell<i32>> = Rc::new(Cell::new(0));
    let mut p = SharedPtr::new(DropCounter { tag: 7, drops: Rc::clone(&drops) });
    p.set_null();
    assert!(p.is_null());
    assert_eq!(drops.get(), 1);
    p.set_null();
    assert!(p.is_null());
    assert_eq!(drops.get(), 1);
}

#[test]
fn clone_independence_rc() {
    let a = SharedPtr::new(5);
    let mut b = a.clone();
    assert!(!b.is_null());
    b.set_null();
    assert!(b.is_null());
    assert!(!a.is_null());
    assert_eq!(**a.deref(), 5);
}

#[test]
fn clone_of_empty_is_empty_rc() {
    let a = SharedPtr::<i32>::zeroed();
    let b = a.clone();
    assert!(b.is_null());
}

#[test]
fn weak_lifecycle_rc() {
    let mut a = SharedPtr::new(8);
    let w = a.weak().unwrap();
    let up = w.upgrade().unwrap();
    assert_eq!(**up.deref(), 8);
    drop(up);
    a.set_null();
    assert!(w.upgrade().is_none());
    assert!(w.upgrade().is_none());
}

#[test]
fn weak_on_empty_is_none_rc() {
    let p = SharedPtr::<i32>::zeroed();
    assert!(p.weak().is_none());
}

#[test]
fn weak_set_null_resets_rc() {
    let a = SharedPtr::new(4);
    let mut w = a.weak().unwrap();
    w.set_null();
    assert!(w.upgrade().is_none());
    assert!(!a.is_null());
}

#[test]
fn get_mut_unique_rc() {
    let mut p = SharedPtr::new(1);
    if let Some(m) = p.get_mut() {
        *m = 10;
    } else {
        panic!("unique container must hand out the payload");
    }
    assert_eq!(**p.deref(), 10);
}

#[test]
fn get_mut_shared_is_none_rc() {
    let mut p = SharedPtr::new(1);
    let q = p.clone();
    assert!(p.get_mut().is_none());
    drop(q);
    assert!(p.get_mut().is_some());
}

#[test]
fn into_inner_unique_rc() {
    let p = SharedPtr::new(21);
    match p.into_inner() {
        Ok(v) => assert_eq!(v, 21),
        Err(_) => panic!("unique container must give up its payload"),
    }
}

#[test]
fn into_inner_shared_fails_and_preserves_rc() {
    let p = SharedPtr::new(21);
    let q = p.clone();
    match p.into_inner() {
        Ok(_) => panic!("shared container must not give up its payload"),
        Err(back) => {
            assert!(!back.is_null());
            assert_eq!(**back.deref(), 21);
            let again = back.clone();
            assert_eq!(**again.deref(), 21);
            assert!(back.weak().is_some());
        }
    }
    assert_eq!(**q.deref(), 21);
}

#[test]
fn into_inner_empty_fails_rc() {
    let p = SharedPtr::<i32>::zeroed();
    match p.into_inner() {
        Ok(_) => panic!("an empty container has nothing to give up"),
        Err(back) => assert!(back.is_null()),
    }
}

#[test]
fn into_or_clone_inner_rc() {
    let p = SharedPtr::new(33);
    assert_eq!(p.into_or_clone_inner(), Some(33));

    let p = SharedPtr::new(44);
    let q = p.clone();
    assert_eq!(p.into_or_clone_inner(), Some(44));
    assert_eq!(**q.deref(), 44);

    let p = SharedPtr::<i32>::zeroed();
    assert_eq!(p.into_or_clone_inner(), None);
}

#[test]
fn assume_init_rc() {
    let p = SharedPtr::new(9);
    let h = p.assume_init().unwrap();
    assert_eq!(*h, 9);
    let e = SharedPtr::<i32>::zeroed();
    assert!(e.assume_init().is_none());
}

#[test]
fn from_handle_rc() {
    let h = Rc::new(6);
    let p = SharedPtr::from(h);
    assert!(!p.is_null());
    assert_eq!(**p.deref(), 6);
}

#[test]
fn deref_mut_reseats_rc() {
    let mut p = SharedPtr::new(2);
    {
        let h = p.deref_mut();
        *h = Rc::new(12);
    }
    assert_eq!(**p.deref(), 12);
}
