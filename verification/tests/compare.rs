use nunny::Array;
use nunny::Slice;
use nunny::Vec;
use std::cmp::Ordering;

#[test]
fn equality_agrees_with_the_raw_sequences() {
    let raw = [1, 2, 3];
    let array = Array::new(raw).unwrap();
    let vector = Vec::new(raw.to_vec()).unwrap();
    let view = Slice::new(&raw[..]).unwrap();

    assert!(array == raw);
    assert!(array == raw[..]);
    assert!(array == raw.to_vec());
    assert!(array == array);
    assert!(array == view);
    assert!(array == vector);

    assert!(view == raw);
    assert!(view == raw[..]);
    assert!(view == raw.to_vec());
    assert!(view == array);
    assert!(view == view);
    assert!(view == vector);

    assert!(vector == raw);
    assert!(vector == raw[..]);
    assert!(vector == raw.to_vec());
    assert!(vector == array);
    assert!(vector == view);
    assert!(vector == vector);
}

#[test]
fn equality_is_symmetric_across_the_converse_impls() {
    let raw = [1, 2, 3];
    let other = [1, 2, 4];
    let array = Array::new(raw).unwrap();
    let vector = Vec::new(raw.to_vec()).unwrap();
    let view = Slice::new(&raw[..]).unwrap();

    assert!(raw == array && array == raw);
    assert!(raw[..] == array && array == raw[..]);
    assert!(raw.to_vec() == array && array == raw.to_vec());
    assert!(raw == view && view == raw);
    assert!(raw[..] == view && view == raw[..]);
    assert!(raw.to_vec() == view && view == raw.to_vec());
    assert!(raw == vector && vector == raw);
    assert!(raw[..] == vector && vector == raw[..]);
    assert!(raw.to_vec() == vector && vector == raw.to_vec());

    assert!(other != array && array != other);
    assert!(other[..] != view && view != other[..]);
    assert!(other.to_vec() != vector && vector != other.to_vec());
}

#[test]
fn equality_sees_length_and_every_element() {
    let vector = Vec::new(vec![1, 2, 3]).unwrap();
    assert!(vector != [1, 2]);
    assert!(vector != [1, 2, 3, 4]);
    assert!(vector != [0, 2, 3]);
    assert!(vector != [1, 2, 0]);
    assert!(vector == [1, 2, 3]);
    let short = [1, 2];
    assert!(Slice::new(&short[..]).unwrap() != vector);
}

#[test]
fn equality_between_different_element_types() {
    let words = Vec::new(vec![String::from("a"), String::from("b")]).unwrap();
    assert!(words == ["a", "b"]);
    assert!(words != ["a", "c"]);
    let strs = ["a", "b"];
    assert!(words == Slice::new(&strs[..]).unwrap());
}

#[test]
fn ordering_is_lexicographic() {
    let small = Vec::new(vec![1, 2, 3]).unwrap();
    let large = Vec::new(vec![1, 3]).unwrap();
    let prefix = Vec::new(vec![1, 2]).unwrap();
    assert!(small < large);
    assert!(large > small);
    assert!(prefix < small);
    assert!(small <= small.clone());
    assert_eq!(small.partial_cmp(&large), Some(Ordering::Less));
    assert_eq!(small.partial_cmp(&prefix), Some(Ordering::Greater));
    assert_eq!(small.partial_cmp(&small.clone()), Some(Ordering::Equal));
    assert_eq!(small.cmp(&large), Ordering::Less);
    assert_eq!(small.cmp(&prefix), Ordering::Greater);
    assert_eq!(small.cmp(&small.clone()), Ordering::Equal);
    assert_eq!(Ord::cmp(&small, &large), Ordering::Less);
}

#[test]
fn ordering_against_the_raw_sequences() {
    let raw = [1, 2, 3];
    let array = Array::new(raw).unwrap();
    let vector = Vec::new(raw.to_vec()).unwrap();
    let view = Slice::new(&raw[..]).unwrap();
    let greater = [1, 2, 4];

    assert!(array < greater && greater > array);
    assert!(array < greater[..] && greater[..] > array);
    assert!(array < greater.to_vec() && greater.to_vec() > array);
    assert!(view < greater && greater > view);
    assert!(view < greater[..] && greater[..] > view);
    assert!(view < greater.to_vec() && greater.to_vec() > view);
    assert!(vector < greater && greater > vector);
    assert!(vector < greater[..] && greater[..] > vector);
    assert!(vector < greater.to_vec() && greater.to_vec() > vector);

    assert_eq!(array.partial_cmp(&raw), Some(Ordering::Equal));
    assert_eq!(view.partial_cmp(&view), Some(Ordering::Equal));
    assert_eq!(array.cmp(&Array::new(greater).unwrap()), Ordering::Less);
    assert_eq!(view.cmp(&Slice::new(&greater[..]).unwrap()), Ordering::Less);
}

#[test]
fn ordering_of_incomparable_elements_is_none() {
    let numbers = Vec::new(vec![1.0, f64::NAN]).unwrap();
    assert_eq!(numbers.partial_cmp(&[1.0, 2.0]), None);
    assert_eq!(numbers.partial_cmp(&[0.5, 2.0]), Some(Ordering::Greater));
    assert!(numbers != [1.0, f64::NAN]);
}

#[test]
fn raw_slice_functions_compare_element_by_element() {
    assert!(nunny::sequence::eq_slices(&[1, 2], &[1, 2]));
    assert!(!nunny::sequence::eq_slices(&[1, 2], &[1, 3]));
    assert!(!nunny::sequence::eq_slices::<i32, i32>(&[1, 2], &[]));
    assert!(nunny::sequence::eq_slices::<i32, i32>(&[], &[]));
    assert_eq!(nunny::sequence::cmp_slices::<i32>(&[], &[]), Ordering::Equal);
    assert_eq!(nunny::sequence::cmp_slices(&[], &[1]), Ordering::Less);
    assert_eq!(nunny::sequence::cmp_slices(&[2], &[1, 5]), Ordering::Greater);
    assert_eq!(nunny::sequence::partial_cmp_slices(&[1, 2], &[1, 2, 0]), Some(Ordering::Less));
    assert_eq!(nunny::sequence::partial_cmp_slices(&[f32::NAN], &[1.0]), None);
}

#[test]
fn queue_equality_sees_both_halves_of_the_queue() {
    let mut queue = std::collections::VecDeque::with_capacity(4);
    queue.push_back(3);
    queue.push_back(4);
    queue.push_front(2);
    queue.push_front(1);
    let (front, back) = queue.as_slices();
    assert!(!front.is_empty() && !back.is_empty());

    let raw = [1, 2, 3, 4];
    assert!(queue == Slice::new(&raw[..]).unwrap());
    assert!(queue == Array::new(raw).unwrap());
    assert!(queue == Vec::new(raw.to_vec()).unwrap());
    assert!(queue != Array::new([1, 2, 3, 5]).unwrap());
    assert!(queue != Array::new([0, 2, 3, 4]).unwrap());
    assert!(queue != Array::new([1, 2, 3]).unwrap());
    assert!(queue != Vec::new(vec![1, 2, 3, 4, 5]).unwrap());
    assert!(nunny::mirror_std::vec_deque::eq_deque_slice(&queue, &raw[..]));
    assert!(!nunny::mirror_std::vec_deque::eq_deque_slice(&queue, &raw[..3]));

    let empty: std::collections::VecDeque<i32> = std::collections::VecDeque::new();
    assert!(empty != Vec::of(1));
    assert!(nunny::mirror_std::vec_deque::eq_deque_slice::<i32, i32>(&empty, &[]));
}
