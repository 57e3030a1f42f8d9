use nunny::Array;
use nunny::NonZeroLen;
use nunny::Slice;

#[test]
fn array_construction_gives_first_last_and_length() {
    let array = Array::new([10, 20, 30]).expect("three elements");
    let view = array.as_slice_ne();
    assert_eq!(*view.first(), 10);
    assert_eq!(*view.last(), 30);
    assert_eq!(view.len_ne(), NonZeroLen::new(3).unwrap());
    assert_eq!(view.len_ne().get(), 3);
}

#[test]
fn array_of_size_zero_is_rejected() {
    let empty: [u8; 0] = [];
    assert!(Array::new(empty).is_none());
    assert!(Array::try_from(empty).is_err());
}

#[test]
fn array_new_unchecked_wraps_the_elements() {
    let array = Array::new_unchecked([1u8, 2]);
    assert_eq!(array.into_array(), [1, 2]);
}

#[test]
fn array_of_holds_the_single_item() {
    let array = Array::of("only");
    assert_eq!(array.as_array(), &["only"]);
    assert_eq!(array.as_slice_ne().len_ne().get(), 1);
    assert_eq!(*array.as_slice_ne().first(), "only");
    assert_eq!(*array.as_slice_ne().last(), "only");
}

#[test]
fn array_round_trip_keeps_contents_and_order() {
    let array = Array::new([3, 1, 2]).unwrap();
    let raw = array.into_array();
    assert_eq!(raw, [3, 1, 2]);
    let again = Array::new(raw).expect("still three elements");
    assert_eq!(again.as_array(), &[3, 1, 2]);
}

#[test]
fn array_each_ref_points_at_every_element() {
    let array = Array::new([String::from("a"), String::from("b")]).unwrap();
    let refs = array.each_ref();
    let raw = refs.into_array();
    assert_eq!(raw[0], "a");
    assert_eq!(raw[1], "b");
    assert!(std::ptr::eq(raw[0], &array.as_array()[0]));
    assert!(std::ptr::eq(raw[1], &array.as_array()[1]));
}

#[test]
fn array_each_mut_writes_through() {
    let mut array = Array::new([1, 2, 3]).unwrap();
    {
        let refs = array.each_mut();
        for slot in refs.into_array() {
            *slot *= 10;
        }
    }
    assert_eq!(array.into_array(), [10, 20, 30]);
}

#[test]
fn array_each_map_applies_in_order() {
    let array = Array::new([1, 2, 3]).unwrap();
    let mut seen = Vec::new();
    let mapped = array.each_map(|x| {
        seen.push(x);
        x.to_string()
    });
    assert_eq!(mapped.into_array(), ["1", "2", "3"]);
    assert_eq!(seen, [1, 2, 3]);
}

#[test]
fn array_as_mut_array_allows_replacement() {
    let mut array = Array::new([1, 2]).unwrap();
    array.as_mut_array()[1] = 5;
    assert_eq!(array.as_array(), &[1, 5]);
}

#[test]
fn array_view_shares_the_backing_memory() {
    let array = Array::new([7u32, 8, 9]).unwrap();
    let view = array.as_slice_ne();
    assert_eq!(view.as_slice().as_ptr(), array.as_array().as_ptr());
    assert_eq!(view.as_slice().len(), array.as_array().len());
    assert_eq!(array.as_slice().as_ptr(), array.as_array().as_ptr());
}

#[test]
fn array_mut_view_writes_into_the_array() {
    let mut array = Array::new([1, 2, 3]).unwrap();
    {
        let mut view = array.as_mut_slice_ne();
        *view.first_mut() = 100;
        *view.last_mut() = 300;
    }
    assert_eq!(array.into_array(), [100, 2, 300]);
}

#[test]
fn array_into_iter_ne_yields_the_elements_in_order() {
    let array = Array::new([4, 5, 6]).unwrap();
    assert_eq!(array.into_iter_ne().collect_vec().into_vec(), [4, 5, 6]);
    assert_eq!(array.into_iter_ne().first(), 4);
    assert_eq!(array.into_iter_ne().last(), 6);
}

#[test]
fn array_is_copy_when_its_elements_are() {
    let array = Array::new([1u8, 2]).unwrap();
    let copy = array;
    assert_eq!(array.as_array(), copy.as_array());
    assert_eq!(array.clone().into_array(), [1, 2]);
}

#[test]
fn slice_to_array_by_reference_checks_the_length() {
    let two = [1u8, 2];
    let view = Slice::new(&two[..]).unwrap();
    let failed: Result<&[u8; 3], _> = <&[u8; 3]>::try_from(view);
    let error = failed.unwrap_err();
    assert_eq!(error.to_string(), "could not convert slice to array");

    let three = [1u8, 2, 3];
    let view = Slice::new(&three[..]).unwrap();
    let array: &[u8; 3] = <&[u8; 3]>::try_from(view).expect("length is three");
    assert_eq!(array, &[1, 2, 3]);
    assert_eq!(array.as_ptr(), three.as_ptr());
}

#[test]
fn slice_to_array_by_copy_checks_the_length() {
    let three = [1u8, 2, 3];
    let view = Slice::new(&three[..]).unwrap();
    let copy: Array<u8, 3> = Array::try_from(view).expect("length is three");
    assert_eq!(copy.into_array(), [1, 2, 3]);
    let failed: Result<Array<u8, 2>, _> = Array::try_from(view);
    assert_eq!(failed.unwrap_err().message(), "could not convert slice to array");
    let failed: Result<Array<u8, 4>, _> = Array::try_from(view);
    assert!(failed.is_err());
}

#[test]
fn vec_to_array_hands_the_vector_back_on_mismatch() {
    let vector = nunny::Vec::new(vec![1, 2, 3]).unwrap();
    let back = Array::<i32, 2>::try_from(vector).unwrap_err();
    assert_eq!(back.as_vec(), &[1, 2, 3]);
    let array = Array::<i32, 3>::try_from(back).expect("length is three");
    assert_eq!(array.into_array(), [1, 2, 3]);
}
