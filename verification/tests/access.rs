use nunny::Array;
use nunny::BoxedSlice;
use nunny::Slice;
use nunny::Vec;

#[test]
fn vec_accessors_hand_out_elements() {
    let mut vector = Vec::new(vec![1, 2, 3]).unwrap();
    assert_eq!(vector.len_ne().get(), 3);
    assert_eq!(*vector.first(), 1);
    assert_eq!(*vector.last(), 3);
    let (head, tail) = vector.split_first();
    assert_eq!((*head, tail), (1, &[2, 3][..]));
    let (last, init) = vector.split_last();
    assert_eq!((*last, init), (3, &[1, 2][..]));
    assert_eq!(*vector.iter_ne().last(), 3);
    *vector.first_mut() = 10;
    *vector.last_mut() = 30;
    assert_eq!(vector.as_vec(), &[10, 2, 30]);
}

#[test]
fn vec_accessors_on_a_single_element() {
    let mut vector = Vec::of(7);
    assert_eq!(vector.first(), vector.last());
    assert!(vector.split_first().1.is_empty());
    assert!(vector.split_last().1.is_empty());
    *vector.last_mut() = 8;
    assert_eq!(*vector.first(), 8);
}

#[test]
fn array_accessors_hand_out_elements() {
    let mut array = Array::new([1, 2, 3]).unwrap();
    assert_eq!(array.len_ne().get(), 3);
    assert_eq!(*array.first(), 1);
    assert_eq!(*array.last(), 3);
    let (head, tail) = array.split_first();
    assert_eq!((*head, tail), (1, &[2, 3][..]));
    let (last, init) = array.split_last();
    assert_eq!((*last, init), (3, &[1, 2][..]));
    assert_eq!(*array.iter_ne().first(), 1);
    *array.first_mut() = 10;
    *array.last_mut() = 30;
    assert_eq!(array.as_array(), &[10, 2, 30]);
}

#[test]
fn everything_dereferences_to_the_slice_of_its_elements() {
    let raw = [3, 1, 2];
    let view = Slice::new(&raw[..]).unwrap();
    assert_eq!(view.iter().sum::<i32>(), 6);
    assert_eq!(view[1], 1);
    assert!(view.contains(&2));

    let mut array = Array::new(raw).unwrap();
    array.sort();
    assert_eq!(array.as_array(), &[1, 2, 3]);
    assert_eq!(array.get(5), None);

    let mut vector = Vec::new(raw.to_vec()).unwrap();
    vector.reverse();
    vector[0] = 9;
    assert_eq!(vector.as_vec(), &[9, 1, 3]);
    assert_eq!(vector.binary_search(&100), Err(3));

    let boxed = BoxedSlice::new(raw.to_vec().into_boxed_slice()).unwrap();
    assert_eq!(boxed.to_vec(), [3, 1, 2]);

    let mut raw = [1, 2];
    let mut view = Slice::new_mut(&mut raw[..]).unwrap();
    view.swap(0, 1);
    assert_eq!(view[0], 2);
    assert_eq!(raw, [2, 1]);
}

#[test]
fn for_loops_walk_the_elements() {
    let raw = [1, 2, 3];
    let mut seen = std::vec::Vec::new();
    for item in Slice::new(&raw[..]).unwrap() {
        seen.push(*item);
    }
    let array = Array::new(raw).unwrap();
    for item in &array {
        seen.push(*item);
    }
    for item in array {
        seen.push(item);
    }
    let vector = Vec::new(raw.to_vec()).unwrap();
    for item in &vector {
        seen.push(*item);
    }
    for item in vector {
        seen.push(item);
    }
    for item in BoxedSlice::new(raw.to_vec().into_boxed_slice()).unwrap() {
        seen.push(item);
    }
    assert_eq!(seen, [1, 2, 3, 1, 2, 3, 1, 2, 3, 1, 2, 3, 1, 2, 3, 1, 2, 3]);
}

#[test]
fn everything_can_be_borrowed_as_a_slice() {
    fn total(values: impl AsRef<[i32]>) -> i32 {
        values.as_ref().iter().sum()
    }
    fn bump(mut values: impl AsMut<[i32]>) -> i32 {
        values.as_mut()[0] += 1;
        values.as_mut()[0]
    }
    fn borrowed<B: std::borrow::Borrow<[i32]>>(values: &B) -> usize {
        values.borrow().len()
    }
    let raw = [1, 2, 3];
    assert_eq!(total(Slice::new(&raw[..]).unwrap()), 6);
    assert_eq!(total(Array::new(raw).unwrap()), 6);
    assert_eq!(total(Vec::new(raw.to_vec()).unwrap()), 6);
    assert_eq!(total(BoxedSlice::new(raw.to_vec().into_boxed_slice()).unwrap()), 6);
    assert_eq!(bump(Array::new(raw).unwrap()), 2);
    assert_eq!(bump(Vec::new(raw.to_vec()).unwrap()), 2);
    let mut changed = [5, 6];
    assert_eq!(bump(Slice::new_mut(&mut changed[..]).unwrap()), 6);
    assert_eq!(changed, [6, 6]);
    assert_eq!(borrowed(&Slice::new(&raw[..]).unwrap()), 3);
    assert_eq!(borrowed(&Array::new(raw).unwrap()), 3);
    assert_eq!(borrowed(&Vec::new(raw.to_vec()).unwrap()), 3);

    let mut set = std::collections::HashSet::new();
    set.insert(Vec::new(vec![1, 2]).unwrap());
    assert!(set.contains(&[1, 2][..]));
    assert!(!set.contains(&[2, 1][..]));
}
