use rcn::Arena;
use rcn::Rcn;
use rcn::Weakn;
use std::cmp::Ordering;
use std::rc::Rc;

#[test]
fn counts_follow_the_live_handles() {
    let mut arena = Arena::new();
    let a = Rcn::new(&mut arena, 5);
    let b = a.share(&mut arena);
    assert_eq!(a.strong_count(&arena), 2);
    assert_eq!(b.strong_count(&arena), 2);
    b.drop(&mut arena);
    assert_eq!(a.strong_count(&arena), 1);
    let w = a.downgrade(&mut arena);
    assert_eq!(a.weak_count(&arena), 1);
    a.drop(&mut arena);
    assert!(w.upgrade(&mut arena).is_none());
}

#[test]
fn counts_after_a_longer_chain() {
    let mut arena = Arena::new();
    let a = Rcn::new(&mut arena, 1u8);
    let b = a.share(&mut arena);
    let c = b.share(&mut arena);
    let w1 = a.downgrade(&mut arena);
    let w2 = w1.share(&mut arena);
    let d = w2.upgrade(&mut arena).unwrap();
    assert_eq!(a.strong_count(&arena), 4);
    assert_eq!(a.weak_count(&arena), 2);
    c.drop(&mut arena);
    w1.drop(&mut arena);
    assert_eq!(d.strong_count(&arena), 3);
    assert_eq!(d.weak_count(&arena), 1);
    a.drop(&mut arena);
    b.drop(&mut arena);
    d.drop(&mut arena);
    assert!(w2.is_none(&arena));
    assert_eq!(arena.live_blocks(), 1);
    w2.drop(&mut arena);
    assert_eq!(arena.live_blocks(), 0);
}

#[test]
fn share_aliases_and_clone_duplicates() {
    let mut arena = Arena::new();
    let a = Rcn::new(&mut arena, 10);
    let mut b = a.share(&mut arena);
    let mut c = a.clone(&mut arena);
    assert!(Rcn::ptr_eq(&a, &b));
    assert!(!Rcn::ptr_eq(&a, &c));
    b.set(&mut arena, &11);
    assert_eq!(a.get(&arena), 11);
    assert_eq!(b.get(&arena), 11);
    assert_eq!(c.get(&arena), 10);
    c.set(&mut arena, &12);
    assert_eq!(a.get(&arena), 11);
    assert_eq!(b.get(&arena), 11);
    assert_eq!(c.get(&arena), 12);
    assert_eq!(a.strong_count(&arena), 2);
    assert_eq!(c.strong_count(&arena), 1);
    assert_eq!(c.weak_count(&arena), 0);
}

#[test]
fn clone_of_an_empty_handle_is_empty() {
    let mut arena: Arena<i32> = Arena::new();
    let n: Rcn<i32> = Rcn::none();
    let c = n.clone(&mut arena);
    assert!(c.is_none(&arena));
    assert_eq!(arena.live_blocks(), 0);
}

#[test]
fn take_needs_the_only_handle() {
    let mut arena = Arena::new();
    let mut a = Rcn::new(&mut arena, 7);
    let w = a.downgrade(&mut arena);
    assert_eq!(a.take(&mut arena), None);
    assert_eq!(*a.deref(&arena), 7);
    assert_eq!(a.strong_count(&arena), 1);
    assert_eq!(a.weak_count(&arena), 1);
    w.drop(&mut arena);
    let b = a.share(&mut arena);
    assert_eq!(a.take(&mut arena), None);
    assert_eq!(*a.deref(&arena), 7);
    b.drop(&mut arena);
    assert_eq!(a.take(&mut arena), Some(7));
    assert!(a.is_none(&arena));
    assert!(!a.is_some(&arena));
    assert_eq!(a.strong_count(&arena), 0);
    assert_eq!(a.weak_count(&arena), 0);
    assert_eq!(arena.live_blocks(), 0);
    assert_eq!(a.take(&mut arena), None);
}

#[test]
fn observer_of_a_dropped_value_is_empty() {
    let mut arena = Arena::new();
    let a = Rcn::new(&mut arena, String::from("gone"));
    let w = a.downgrade(&mut arena);
    assert!(w.is_some(&arena));
    assert_eq!(w.deref(&arena), "gone");
    a.drop(&mut arena);
    assert!(w.is_none(&arena));
    assert!(!w.is_some(&arena));
    assert!(w.upgrade(&mut arena).is_none());
    assert_eq!(arena.live_blocks(), 1);
    w.drop(&mut arena);
    assert_eq!(arena.live_blocks(), 0);
}

#[test]
fn downgrade_then_upgrade_round_trip() {
    let mut arena = Arena::new();
    let a = Rcn::new(&mut arena, 42);
    let other = a.share(&mut arena);
    let before = a.strong_count(&arena);
    let w = a.downgrade(&mut arena);
    let u = w.upgrade(&mut arena).unwrap();
    assert!(Rcn::ptr_eq(&a, &u));
    assert_eq!(*u.deref(&arena), 42);
    assert_eq!(u.strong_count(&arena), before + 1);
    assert_eq!(u.weak_count(&arena), 1);
    other.drop(&mut arena);
}

#[test]
fn try_unwrap_shared_then_single() {
    let mut arena = Arena::new();
    let x = Rcn::new(&mut arena, 4);
    let y = x.share(&mut arena);
    let x = match Rcn::try_unwrap(x, &mut arena) {
        Ok(_) => panic!("a shared handle was unwrapped"),
        Err(x) => x,
    };
    assert_eq!(*x.deref(&arena), 4);
    assert_eq!(x.strong_count(&arena), 2);
    y.drop(&mut arena);
    let x2 = Rcn::new(&mut arena, 4);
    assert!(matches!(Rcn::try_unwrap(x2, &mut arena), Ok(4)));
    x.drop(&mut arena);
}

#[test]
fn try_unwrap_leaves_observers_with_nothing() {
    let mut arena = Arena::new();
    let x = Rcn::new(&mut arena, 5);
    let w = x.downgrade(&mut arena);
    assert!(matches!(Rcn::try_unwrap(x, &mut arena), Ok(5)));
    assert!(w.is_none(&arena));
    assert!(w.upgrade(&mut arena).is_none());
    assert_eq!(arena.live_blocks(), 1);
    w.drop(&mut arena);
    assert_eq!(arena.live_blocks(), 0);
}

#[test]
fn try_unwrap_of_an_empty_handle_fails() {
    let mut arena: Arena<i32> = Arena::new();
    let n: Rcn<i32> = Rcn::none();
    match Rcn::try_unwrap(n, &mut arena) {
        Ok(_) => panic!("an empty handle was unwrapped"),
        Err(n) => assert!(n.is_none(&arena)),
    }
}

#[test]
fn none_handle_has_no_counts() {
    let arena: Arena<i32> = Arena::new();
    let n: Rcn<i32> = Rcn::none();
    assert!(n.is_none(&arena));
    assert!(!n.is_some(&arena));
    assert!(!n.is_unique(&arena));
    assert_eq!(n.strong_count(&arena), 0);
    assert_eq!(n.weak_count(&arena), 0);
    let m: Rcn<i32> = Rcn::none();
    assert!(Rcn::ptr_eq(&n, &m));
}

#[test]
fn dropping_an_empty_handle_changes_nothing() {
    let mut arena = Arena::new();
    let a = Rcn::new(&mut arena, 1);
    let n: Rcn<i32> = Rcn::none();
    n.drop(&mut arena);
    let w: Weakn<i32> = Weakn::new();
    w.drop(&mut arena);
    assert_eq!(arena.live_blocks(), 1);
    assert_eq!(a.strong_count(&arena), 1);
}

#[test]
fn empty_observers() {
    let mut arena: Arena<i32> = Arena::new();
    let w: Weakn<i32> = Weakn::new();
    let v: Weakn<i32> = Weakn::none();
    assert!(w.is_none(&arena));
    assert!(v.is_none(&arena));
    assert!(!w.is_some(&arena));
    assert!(w.upgrade(&mut arena).is_none());
}

#[test]
fn observer_clone_observes_nothing() {
    let mut arena = Arena::new();
    let a = Rcn::new(&mut arena, 3);
    let w = a.downgrade(&mut arena);
    let c = w.clone();
    assert!(w.is_some(&arena));
    assert!(c.is_none(&arena));
    assert_eq!(a.weak_count(&arena), 1);
}

#[test]
fn observer_share_counts_weak_only() {
    let mut arena = Arena::new();
    let a = Rcn::new(&mut arena, 3);
    let w = a.downgrade(&mut arena);
    let v = w.share(&mut arena);
    assert_eq!(a.weak_count(&arena), 2);
    assert_eq!(a.strong_count(&arena), 1);
    assert_eq!(*v.deref(&arena), 3);
    v.drop(&mut arena);
    assert_eq!(a.weak_count(&arena), 1);
}

#[test]
fn released_slots_are_used_again() {
    let mut arena = Arena::new();
    assert_eq!(arena.live_blocks(), 0);
    let a = Rcn::new(&mut arena, 1);
    let b = Rcn::new(&mut arena, 2);
    assert_eq!(arena.live_blocks(), 2);
    a.drop(&mut arena);
    assert_eq!(arena.live_blocks(), 1);
    let c = Rcn::new(&mut arena, 3);
    let d = Rcn::new(&mut arena, 4);
    assert_eq!(arena.live_blocks(), 3);
    assert_eq!(*b.deref(&arena), 2);
    assert_eq!(*c.deref(&arena), 3);
    assert_eq!(*d.deref(&arena), 4);
    assert!(!Rcn::ptr_eq(&b, &c));
    assert!(!Rcn::ptr_eq(&c, &d));
    assert!(!Rcn::ptr_eq(&b, &d));
    assert_eq!(c.strong_count(&arena), 1);
    assert_eq!(c.weak_count(&arena), 0);
}

#[test]
fn set_is_seen_through_observers() {
    let mut arena = Arena::new();
    let mut a = Rcn::new(&mut arena, 1);
    let w = a.downgrade(&mut arena);
    a.set(&mut arena, &9);
    assert_eq!(*w.deref(&arena), 9);
    *a.deref_mut(&mut arena) = 10;
    assert_eq!(*w.deref(&arena), 10);
    assert_eq!(*a.as_ref(&arena), 10);
}

#[test]
fn comparisons_go_by_value() {
    let mut arena = Arena::new();
    let two = Rcn::new(&mut arena, 2);
    let three = Rcn::new(&mut arena, 3);
    let other_two = Rcn::new(&mut arena, 2);
    assert!(two.eq(&other_two, &arena));
    assert!(!two.ne(&other_two, &arena));
    assert!(two.ne(&three, &arena));
    assert!(!two.eq(&three, &arena));
    assert_eq!(two.partial_cmp(&three, &arena), Some(Ordering::Less));
    assert_eq!(three.partial_cmp(&two, &arena), Some(Ordering::Greater));
    assert_eq!(two.partial_cmp(&other_two, &arena), Some(Ordering::Equal));
    assert!(two.lt(&three, &arena));
    assert!(!three.lt(&two, &arena));
    assert!(two.le(&other_two, &arena));
    assert!(!three.le(&two, &arena));
    assert!(three.gt(&two, &arena));
    assert!(!two.gt(&other_two, &arena));
    assert!(two.ge(&other_two, &arena));
    assert!(!two.ge(&three, &arena));
}

#[test]
fn observers_compare_by_value() {
    let mut arena = Arena::new();
    let two = Rcn::new(&mut arena, 2);
    let three = Rcn::new(&mut arena, 3);
    let w2 = two.downgrade(&mut arena);
    let w3 = three.downgrade(&mut arena);
    let v2 = w2.share(&mut arena);
    assert!(w2.eq(&v2, &arena));
    assert!(w2.ne(&w3, &arena));
    assert_eq!(w2.partial_cmp(&w3, &arena), Some(Ordering::Less));
    assert!(w2.lt(&w3, &arena));
    assert!(w2.le(&v2, &arena));
    assert!(w3.gt(&w2, &arena));
    assert!(w3.ge(&w2, &arena));
    assert!(!w2.ge(&w3, &arena));
}

#[test]
fn text_of_handles() {
    let mut arena = Arena::new();
    let s = Rcn::new(&mut arena, String::from("a\"b"));
    assert_eq!(s.to_string(&arena), "a\"b");
    assert_eq!(s.to_debug_string(&arena), "\"a\\\"b\"");
    let w = s.downgrade(&mut arena);
    assert_eq!(w.to_debug_string(), "(Weakn)");
}

#[test]
fn other_constructors() {
    let mut arena = Arena::new();
    let d: Rcn<u32> = Rcn::default(&mut arena);
    assert_eq!(*d.deref(&arena), 0);
    assert!(d.is_unique(&arena));
    let f = Rcn::from(&mut arena, 8u32);
    assert_eq!(f.get(&arena), 8);
    let b = Rcn::from_box(&mut arena, Box::new(9u32));
    assert_eq!(b.get(&arena), 9);
    assert_eq!(b.strong_count(&arena), 1);
    assert_eq!(b.weak_count(&arena), 0);
    let shared = Rc::new(10u32);
    let r = Rcn::from_rc(&mut arena, shared.clone());
    assert_eq!(r.get(&arena), 10);
    assert_eq!(Rc::strong_count(&shared), 1);
    assert_eq!(arena.live_blocks(), 4);
}
