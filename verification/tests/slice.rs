use nunny::BoxedSlice;
use nunny::Slice;
use nunny::SliceMut;

#[test]
fn slice_new_rejects_empty() {
    let empty: &[u8] = &[];
    assert!(Slice::new(empty).is_none());
    assert!(Slice::try_from(empty).is_err());
    assert_eq!(Slice::try_from(empty).unwrap_err().to_string(), "collection was empty");
}

#[test]
fn slice_new_keeps_contents_and_memory() {
    let raw = [1, 2, 3];
    let view = Slice::new(&raw[..]).unwrap();
    assert_eq!(view.as_slice(), &[1, 2, 3]);
    assert_eq!(view.as_slice().as_ptr(), raw.as_ptr());
    assert_eq!(view.len(), 3);
    assert_eq!(view.len_ne().get(), 3);
}

#[test]
fn slice_round_trip_keeps_contents_and_order() {
    let raw = [9, 8, 7];
    let view = Slice::new(&raw[..]).unwrap();
    let back: &[i32] = view.as_slice();
    let again = Slice::new(back).expect("still non-empty");
    assert_eq!(again.as_slice(), &[9, 8, 7]);
    let unwrapped: &[i32] = again.into();
    assert_eq!(unwrapped, &[9, 8, 7]);
}

#[test]
fn slice_new_unchecked_views_the_elements() {
    let raw = [5u8];
    let view = Slice::new_unchecked(&raw[..]);
    assert_eq!(view.as_slice(), &[5]);
}

#[test]
fn slice_of_views_one_element() {
    let item = 42;
    let view = Slice::of(&item);
    assert_eq!(view.as_slice(), &[42]);
    assert_eq!(view.len_ne().get(), 1);
    assert!(std::ptr::eq(view.first(), &item));
    assert!(std::ptr::eq(view.last(), &item));
}

#[test]
fn slice_first_last_and_splits() {
    let raw = [1, 2, 3, 4];
    let view = Slice::new(&raw[..]).unwrap();
    assert_eq!(*view.first(), 1);
    assert_eq!(*view.last(), 4);
    let (head, tail) = view.split_first();
    assert_eq!(*head, 1);
    assert_eq!(tail, &[2, 3, 4]);
    let (last, init) = view.split_last();
    assert_eq!(*last, 4);
    assert_eq!(init, &[1, 2, 3]);
}

#[test]
fn slice_splits_of_a_single_element_leave_nothing() {
    let raw = [7];
    let view = Slice::new(&raw[..]).unwrap();
    let (head, tail) = view.split_first();
    assert_eq!(*head, 7);
    assert!(tail.is_empty());
    let (last, init) = view.split_last();
    assert_eq!(*last, 7);
    assert!(init.is_empty());
}

#[test]
fn slice_is_copy_for_any_element() {
    let raw = [String::from("a")];
    let view = Slice::new(&raw[..]).unwrap();
    let copy = view;
    assert_eq!(view.as_slice(), copy.as_slice());
    assert_eq!(view.clone().as_slice(), &["a"]);
}

#[test]
fn slice_iter_ne_can_be_had_again() {
    let raw = [1, 2, 3];
    let view = Slice::new(&raw[..]).unwrap();
    assert_eq!(*view.iter_ne().first(), 1);
    assert_eq!(*view.iter_ne().last(), 3);
    assert_eq!(view.iter_ne().copied().collect_vec().into_vec(), [1, 2, 3]);
}

#[test]
fn slice_mut_rejects_empty() {
    let mut empty: [u8; 0] = [];
    assert!(Slice::new_mut(&mut empty[..]).is_none());
    assert!(SliceMut::try_from(&mut empty[..]).is_err());
}

#[test]
fn slice_mut_writes_into_the_borrowed_sequence() {
    let mut raw = [1, 2, 3];
    {
        let mut view = Slice::new_mut(&mut raw[..]).unwrap();
        assert_eq!(view.len_ne().get(), 3);
        assert_eq!(*view.first(), 1);
        assert_eq!(*view.last(), 3);
        *view.first_mut() = 10;
        *view.last_mut() = 30;
        view.as_mut_slice()[1] = 20;
        assert_eq!(view.as_slice(), &[10, 20, 30]);
        assert_eq!(view.as_slice_ne().as_slice(), &[10, 20, 30]);
    }
    assert_eq!(raw, [10, 20, 30]);
}

#[test]
fn slice_mut_splits_write_through() {
    let mut raw = [1, 2, 3];
    {
        let mut view = Slice::new_mut_unchecked(&mut raw[..]);
        let (head, tail) = view.split_first_mut();
        *head = 0;
        tail[1] = 9;
        let (last, init) = view.split_last_mut();
        *last += 1;
        init[0] = 5;
    }
    assert_eq!(raw, [5, 2, 10]);
}

#[test]
fn slice_of_mut_writes_into_the_item() {
    let mut item = 1;
    {
        let mut view = Slice::of_mut(&mut item);
        assert_eq!(view.len(), 1);
        *view.first_mut() = 2;
    }
    assert_eq!(item, 2);
}

#[test]
fn slice_mut_gives_the_slice_back() {
    let mut raw = [1, 2];
    let view = Slice::new_mut(&mut raw[..]).unwrap();
    let back: &mut [i32] = view.into_mut_slice();
    back[0] = 7;
    let view = Slice::new_mut(&mut raw[..]).unwrap();
    let back: &mut [i32] = view.into();
    back[1] = 8;
    assert_eq!(raw, [7, 8]);
}

#[test]
fn boxed_slice_rejects_empty_and_hands_it_back() {
    let empty: Box<[u8]> = Box::new([]);
    let back = BoxedSlice::new(empty).unwrap_err();
    assert!(back.is_empty());
    let empty: Box<[u8]> = Box::new([]);
    assert!(BoxedSlice::try_from(empty).is_err());
}

#[test]
fn boxed_slice_keeps_the_elements() {
    let raw: Box<[i32]> = Box::new([1, 2, 3]);
    let boxed = BoxedSlice::new(raw).unwrap();
    assert_eq!(boxed.as_slice(), &[1, 2, 3]);
    assert_eq!(*boxed.as_slice_ne().first(), 1);
    let copy = boxed.clone();
    assert_eq!(copy.as_slice(), &[1, 2, 3]);
    assert_eq!(boxed.into_iter_ne().last(), 3);
    let raw: Box<[i32]> = copy.into_boxed_slice();
    assert_eq!(&*raw, &[1, 2, 3]);
    let unchecked = BoxedSlice::new_unchecked(raw);
    let raw: Box<[i32]> = unchecked.into();
    assert_eq!(&*raw, &[1, 2, 3]);
}
