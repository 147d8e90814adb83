use cow_rc::heap::Heap;
use cow_rc::rc::CowRc;
use cow_rc::to_owned::cow_rc_slice::ToCowRcSlice;
use cow_rc::to_owned::Cow;

#[test]
fn cow_rc_slice_deref_test() {
    let mut heap = Heap::new();
    let to_rc_slice: ToCowRcSlice<i32> = ToCowRcSlice::from_slice(&[1, 2, 3]);
    let rc_slice: CowRc<Vec<i32>> = to_rc_slice.to_owned(&mut heap);
    assert_eq!(rc_slice.as_ref(&heap).len(), 3);
}

#[test]
fn cow_rc_slice_cow() {
    let mut heap = Heap::new();
    let cow: Cow<ToCowRcSlice<i32>, CowRc<Vec<i32>>> =
        Cow::Owned(ToCowRcSlice::from_slice(&[1, 2, 3][..]).to_owned(&mut heap));
    // The owner is seen through as a view, the view as a slice
    assert_eq!(cow.len(&heap), 3);
    assert_eq!(cow.deref(&heap).deref().len(), 3);
}

#[test]
fn slice_view_is_the_slice() {
    let data = [10u8, 20, 30, 40];
    let view = ToCowRcSlice::from_slice(&data[1..]);
    assert_eq!(view.slice, &[20, 30, 40]);
    assert_eq!(view.deref(), &data[1..]);
    assert_eq!(view.deref().as_ptr(), data[1..].as_ptr());
    assert_eq!(view.deref().len(), 3);
}

#[test]
fn slice_from_array_views_every_element() {
    let data = [1i32, 2, 3];
    let view = ToCowRcSlice::from_array(&data);
    assert_eq!(view.slice, &[1, 2, 3]);
    let empty: [i32; 0] = [];
    assert!(ToCowRcSlice::from_array(&empty).slice.is_empty());
}

#[test]
fn slice_from_slice_mut_writes_through() {
    let mut data = [1u8, 2, 3];
    let view = ToCowRcSlice::from_slice_mut(&mut data);
    view.slice[0] = 7;
    assert_eq!(view.as_view().slice, &[7, 2, 3]);
    assert_eq!(view.as_view().to_vec(), vec![7, 2, 3]);
    assert_eq!(data, [7, 2, 3]);
}

#[test]
fn slice_to_vec_copies_in_order() {
    let data = [String::from("a"), String::from("b")];
    let view = ToCowRcSlice::from_slice(&data);
    assert_eq!(view.to_vec(), vec![String::from("a"), String::from("b")]);
    let empty: [u8; 0] = [];
    assert_eq!(ToCowRcSlice::from_slice(&empty).to_vec(), Vec::<u8>::new());
}

#[test]
fn slice_to_owned_is_a_unique_copy() {
    let mut heap = Heap::new();
    let mut data = [1, 2, 3];
    let rc = ToCowRcSlice::from_slice(&data).to_owned(&mut heap);
    assert!(CowRc::is_unique(&rc, &heap));
    assert_eq!(heap.strong_count(&rc.rc), 1);
    assert_eq!(heap.weak_count(&rc.rc), 0);
    data[0] = 9;
    assert_eq!(rc.as_ref(&heap), &vec![1, 2, 3]);
}

#[test]
fn slice_eq_compares_elements() {
    let view = ToCowRcSlice::from_slice(&[1, 2, 3]);
    assert!(view.eq(&[1, 2, 3]));
    assert!(!view.eq(&[1, 2, 4]));
    assert!(!view.eq(&[1, 2]));
    assert!(!view.eq(&[1, 2, 3, 4]));
    let empty: [i32; 0] = [];
    assert!(ToCowRcSlice::from_slice(&empty).eq(&[]));
}

#[test]
fn slice_default_views_nothing() {
    let view: ToCowRcSlice<u8> = ToCowRcSlice::default();
    assert!(view.slice.is_empty());
    assert!(view.eq(&[]));
}

#[test]
fn slice_views_compare_as_their_slices() {
    let a = ToCowRcSlice::from_slice(&[1, 2, 3]);
    let b = ToCowRcSlice::from_slice(&[1, 2, 4]);
    assert!(a < b);
    assert_ne!(a, b);
    assert_eq!(a, ToCowRcSlice::from_array(&[1, 2, 3]));
}

#[test]
fn slice_pointer_borrows_as_view() {
    let mut heap = Heap::new();
    let rc = CowRc::new(&mut heap, vec![4u16, 5, 6]);
    let view = rc.borrow(&heap);
    assert_eq!(view.slice, &[4, 5, 6]);
    let cow = rc.borrow_cow(&heap);
    assert!(cow.is_borrowed());
    assert!(!cow.is_owned());
    assert_eq!(cow.len(&heap), 3);
    match cow {
        Cow::Borrowed(view) => assert_eq!(view.slice.as_ptr(), rc.as_ref(&heap).as_ptr()),
        Cow::Owned(_) => panic!("a borrow was asked for"),
    }
}

#[test]
fn slice_cow_into_owned() {
    let mut heap = Heap::new();
    let data = [1u8, 2];
    let borrowed: Cow<ToCowRcSlice<u8>, CowRc<Vec<u8>>> =
        Cow::Borrowed(ToCowRcSlice::from_slice(&data));
    let made = borrowed.into_owned(&mut heap);
    assert_eq!(made.as_ref(&heap), &vec![1, 2]);
    assert!(CowRc::is_unique(&made, &heap));

    let shared = CowRc::clone(&made, &mut heap);
    let owned: Cow<ToCowRcSlice<u8>, CowRc<Vec<u8>>> = Cow::Owned(shared);
    assert!(owned.is_owned());
    let back = owned.into_owned(&mut heap);
    assert_eq!(heap.strong_count(&back.rc), 2);
    assert_eq!(back.as_ref(&heap).as_ptr(), made.as_ref(&heap).as_ptr());
}

#[test]
fn slice_round_trip_through_iterator() {
    let mut heap = Heap::new();
    let items = vec![3i64, -1, 4, -1, 5];
    let rc = CowRc::<Vec<i64>>::from_iter(&mut heap, items.clone().into_iter());
    assert!(CowRc::is_unique(&rc, &heap));
    assert_eq!(rc.as_ref(&heap), &items);
    let back = rc.into_vec(&mut heap);
    assert_eq!(back, items);

    let none = CowRc::<Vec<i64>>::from_iter(&mut heap, Vec::new().into_iter());
    assert_eq!(none.into_vec(&mut heap), Vec::<i64>::new());
}

#[test]
fn slice_into_vec_gives_up_the_share() {
    let mut heap = Heap::new();
    let a = CowRc::new(&mut heap, vec![1u8, 2, 3]);
    let b = CowRc::clone(&a, &mut heap);
    assert_eq!(b.into_vec(&mut heap), vec![1, 2, 3]);
    assert!(CowRc::is_unique(&a, &heap));
    assert_eq!(a.as_ref(&heap), &vec![1, 2, 3]);
}

#[test]
fn slice_pointer_writes_copy_on_write() {
    let mut heap = Heap::new();
    let mut a = ToCowRcSlice::from_slice(&[1, 2, 3]).to_owned(&mut heap);
    let b = CowRc::clone(&a, &mut heap);
    a.as_mut(&mut heap).push(4);
    assert_eq!(a.as_ref(&heap), &vec![1, 2, 3, 4]);
    assert_eq!(b.as_ref(&heap), &vec![1, 2, 3]);
}
