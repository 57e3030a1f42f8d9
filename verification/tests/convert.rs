use nunny::Array;
use nunny::BoxedSlice;
use nunny::Error;
use nunny::Slice;
use nunny::TryFromSliceError;
use nunny::Vec;
use std::collections::BTreeMap;
use std::collections::BTreeSet;
use std::collections::HashMap;
use std::collections::HashSet;
use std::collections::VecDeque;

#[test]
fn errors_have_their_fixed_text() {
    let empty: &[u8] = &[];
    let error: Error = Slice::try_from(empty).unwrap_err();
    assert_eq!(error.message(), "collection was empty");
    assert_eq!(error.to_string(), "collection was empty");
    let other: Error = Array::try_from([0u8; 0]).unwrap_err();
    assert_eq!(error, other);
    assert_eq!(format!("{:?}", error), "Error(())");

    let one = [1];
    let view = Slice::new(&one[..]).unwrap();
    let error: TryFromSliceError = Array::<i32, 2>::try_from(view).unwrap_err();
    assert_eq!(error.message(), "could not convert slice to array");
    assert_eq!(error.to_string(), "could not convert slice to array");
}

#[test]
fn fallible_conversions_accept_what_is_not_empty() {
    let array = Array::try_from([1, 2]).unwrap();
    assert_eq!(array.as_array(), &[1, 2]);
    let raw = [1, 2];
    let view = Slice::try_from(&raw[..]).unwrap();
    assert_eq!(view.as_slice(), &[1, 2]);
    let vector = Vec::try_from(vec![1, 2]).unwrap();
    assert_eq!(vector.as_vec(), &[1, 2]);
    let boxed = BoxedSlice::try_from(vec![1, 2].into_boxed_slice()).unwrap();
    assert_eq!(boxed.as_slice(), &[1, 2]);
    let mut raw = [1, 2];
    let mut view = nunny::SliceMut::try_from(&mut raw[..]).unwrap();
    *view.first_mut() = 3;
    assert_eq!(raw, [3, 2]);
}

#[test]
fn conversions_into_a_vector_keep_the_elements() {
    let array = Array::new([1, 2, 3]).unwrap();
    assert_eq!(Vec::from(&array).as_vec(), &[1, 2, 3]);
    assert_eq!(Vec::from(array).as_vec(), &[1, 2, 3]);
    let raw = [String::from("a"), String::from("b")];
    let view = Slice::new(&raw[..]).unwrap();
    assert_eq!(Vec::from(view).as_vec(), &["a", "b"]);
    let boxed = BoxedSlice::new(vec![4, 5].into_boxed_slice()).unwrap();
    assert_eq!(Vec::from(boxed).as_vec(), &[4, 5]);
}

#[test]
fn conversions_into_a_boxed_slice_keep_the_elements() {
    let array = Array::new([1, 2, 3]).unwrap();
    assert_eq!(BoxedSlice::from(array).as_slice(), &[1, 2, 3]);
    let vector = Vec::new(vec![4, 5]).unwrap();
    assert_eq!(BoxedSlice::from(vector).as_slice(), &[4, 5]);
    let raw = [6, 7];
    let view = Slice::new(&raw[..]).unwrap();
    let boxed = BoxedSlice::from(view);
    assert_eq!(boxed.as_slice(), &[6, 7]);
    assert_ne!(boxed.as_slice().as_ptr(), raw.as_ptr());
}

#[test]
fn conversions_to_the_raw_sequences_unwrap() {
    let array = Array::new([1, 2]).unwrap();
    let borrowed: &[i32; 2] = (&array).into();
    assert_eq!(borrowed, &[1, 2]);
    let view: Slice<i32> = (&array).into();
    assert_eq!(view.as_slice().as_ptr(), array.as_array().as_ptr());
    let raw: [i32; 2] = array.into();
    assert_eq!(raw, [1, 2]);

    let vector = Vec::new(vec![3, 4]).unwrap();
    let borrowed: &std::vec::Vec<i32> = (&vector).into();
    assert_eq!(borrowed, &[3, 4]);
    let view: Slice<i32> = (&vector).into();
    assert_eq!(view.as_slice().as_ptr(), vector.as_vec().as_ptr());
    let raw: std::vec::Vec<i32> = vector.into();
    assert_eq!(raw, [3, 4]);
}

#[test]
fn boxed_array_conversions_check_the_length() {
    let boxed = BoxedSlice::new(vec![1, 2, 3].into_boxed_slice()).unwrap();
    let back = Box::<Array<i32, 2>>::try_from(boxed).unwrap_err();
    assert_eq!(back.as_slice(), &[1, 2, 3]);
    let array = Box::<Array<i32, 3>>::try_from(back).expect("length is three");
    assert_eq!(array.as_array(), &[1, 2, 3]);

    let vector = Vec::new(vec![4, 5]).unwrap();
    let back = Box::<Array<i32, 3>>::try_from(vector).unwrap_err();
    assert_eq!(back.as_vec(), &[4, 5]);
    let array = Box::<Array<i32, 2>>::try_from(back).expect("length is two");
    assert_eq!(array.as_array(), &[4, 5]);
}

#[test]
fn conversions_into_the_standard_collections() {
    let queue = VecDeque::from(Array::new([3, 1, 2]).unwrap());
    assert_eq!(queue, [3, 1, 2]);

    let pairs = Array::new([(1, 'a'), (2, 'b'), (1, 'c')]).unwrap();
    let hashed = HashMap::from(pairs);
    assert_eq!(hashed.len(), 2);
    assert_eq!(hashed[&1], 'c');
    assert_eq!(hashed[&2], 'b');
    let ordered = BTreeMap::from(pairs);
    assert_eq!(ordered.into_iter().collect::<std::vec::Vec<_>>(), [(1, 'c'), (2, 'b')]);

    let items = Array::new([2, 1, 2, 3]).unwrap();
    let hashed = HashSet::from(items);
    assert_eq!(hashed.len(), 3);
    assert!(hashed.contains(&1) && hashed.contains(&2) && hashed.contains(&3));
    let ordered = BTreeSet::from(items);
    assert_eq!(ordered.into_iter().collect::<std::vec::Vec<_>>(), [1, 2, 3]);
}
