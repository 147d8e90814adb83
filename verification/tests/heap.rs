use cow_rc::heap::Heap;
use cow_rc::heap::WeakRef;

#[test]
fn heap_counts_follow_the_handles() {
    let mut heap = Heap::new();
    let a = heap.allocate('x');
    assert_eq!((heap.strong_count(&a), heap.weak_count(&a)), (1, 0));
    let b = heap.retain(&a);
    assert_eq!((heap.strong_count(&a), heap.weak_count(&a)), (2, 0));
    let w = heap.downgrade(&b);
    assert_eq!((heap.strong_count(&a), heap.weak_count(&a)), (2, 1));
    let w2 = heap.watch(&w);
    assert_eq!((heap.strong_count(&a), heap.weak_count(&a)), (2, 2));
    heap.forget(w2);
    assert_eq!((heap.strong_count(&a), heap.weak_count(&a)), (2, 1));
    heap.release(b);
    assert_eq!((heap.strong_count(&a), heap.weak_count(&a)), (1, 1));
    let c = heap.upgrade(&w).expect("an owner is left");
    assert_eq!((heap.strong_count(&a), heap.weak_count(&a)), (2, 1));
    assert_eq!(*heap.get(&c), 'x');
}

#[test]
fn heap_released_allocation_is_gone() {
    let mut heap = Heap::new();
    let a = heap.allocate(1u8);
    let w = heap.downgrade(&a);
    assert!(heap.holds(&a));
    heap.release(a);
    assert!(heap.observes(&w));
    assert!(heap.upgrade(&w).is_none());
    heap.forget(w);
}

#[test]
fn heap_reuses_what_was_given_up() {
    let mut heap = Heap::new();
    let a = heap.allocate(String::from("first"));
    let b = heap.allocate(String::from("second"));
    heap.release(a);
    let c = heap.allocate(String::from("third"));
    let d = heap.allocate(String::from("fourth"));
    assert_eq!(heap.get(&b), "second");
    assert_eq!(heap.get(&c), "third");
    assert_eq!(heap.get(&d), "fourth");
    assert_eq!(heap.strong_count(&c), 1);
}

#[test]
fn heap_make_mut_in_place_keeps_the_address() {
    let mut heap = Heap::new();
    let mut a = heap.allocate(vec![1u8, 2, 3]);
    let before = heap.get(&a).as_ptr();
    heap.make_mut(&mut a).push(4);
    assert_eq!(heap.get(&a), &vec![1, 2, 3, 4]);
    assert_eq!(heap.strong_count(&a), 1);
    heap.make_mut(&mut a)[0] = 9;
    assert_eq!(heap.get(&a)[0], 9);
    let _ = before;
}

#[test]
fn heap_make_mut_moves_away_from_observers() {
    let mut heap = Heap::new();
    let mut a = heap.allocate(vec![1u8, 2, 3]);
    let buffer = heap.get(&a).as_ptr();
    let w = heap.downgrade(&a);
    heap.make_mut(&mut a)[0] = 9;
    // the value was moved, not copied: the vector kept its buffer
    assert_eq!(heap.get(&a).as_ptr(), buffer);
    assert_eq!(heap.get(&a), &vec![9, 2, 3]);
    assert_eq!((heap.strong_count(&a), heap.weak_count(&a)), (1, 0));
    assert!(heap.upgrade(&w).is_none());
}

#[test]
fn heap_weak_of_nothing() {
    let mut heap: Heap<u8> = Heap::new();
    let nothing: WeakRef<u8> = WeakRef::new();
    assert!(heap.observes(&nothing));
    assert_eq!(heap.observed_strong_count(&nothing), 0);
    assert_eq!(heap.observed_weak_count(&nothing), 0);
    assert!(heap.upgrade(&nothing).is_none());
    heap.forget(nothing);
}

#[test]
fn heap_observer_reads_the_counts() {
    let mut heap = Heap::new();
    let a = heap.allocate(0u8);
    let b = heap.retain(&a);
    let w = heap.downgrade(&a);
    assert_eq!(heap.observed_strong_count(&w), 2);
    assert_eq!(heap.observed_weak_count(&w), 1);
    heap.release(a);
    heap.release(b);
    assert_eq!(heap.observed_strong_count(&w), 0);
    assert_eq!(heap.observed_weak_count(&w), 1);
}

#[test]
fn heap_without_allocations_holds_nothing() {
    let mut one = Heap::new();
    let other: Heap<u8> = Heap::new();
    let a = one.allocate(1u8);
    assert!(one.holds(&a));
    assert!(!other.holds(&a));
    assert_eq!(other.strong_count(&a), 0);
    assert_eq!(other.weak_count(&a), 0);
}

#[test]
fn heap_make_mut_copies_for_the_writer_only() {
    let mut heap = Heap::new();
    let mut a = heap.allocate(vec![1u8, 2, 3]);
    let b = heap.retain(&a);
    let w = heap.downgrade(&a);
    let buffer = heap.get(&b).as_ptr();
    heap.make_mut(&mut a).push(4);
    assert_eq!(heap.get(&a), &vec![1, 2, 3, 4]);
    assert_eq!(heap.get(&b), &vec![1, 2, 3]);
    assert_eq!(heap.get(&b).as_ptr(), buffer);
    assert_eq!((heap.strong_count(&a), heap.weak_count(&a)), (1, 0));
    assert_eq!((heap.strong_count(&b), heap.weak_count(&b)), (1, 1));
    let up = heap.upgrade(&w).expect("the other owner is alive");
    assert_eq!(heap.get(&up), &vec![1, 2, 3]);
}
