use nunny::NonZeroLen;
use nunny::Vec;

fn nz(n: usize) -> NonZeroLen {
    NonZeroLen::new(n).expect("not zero")
}

fn sample() -> Vec<i32> {
    Vec::new(vec![1, 2, 3, 4]).expect("four elements")
}

#[test]
fn vec_rejects_empty_and_hands_it_back() {
    let empty: std::vec::Vec<u8> = std::vec::Vec::with_capacity(8);
    let pointer = empty.as_ptr();
    let back = Vec::new(empty).unwrap_err();
    assert!(back.is_empty());
    assert_eq!(back.as_ptr(), pointer);
    assert_eq!(back.capacity(), 8);
    let back = Vec::try_from(back).unwrap_err();
    assert!(back.is_empty());
}

#[test]
fn vec_round_trip_keeps_contents_and_order() {
    let vector = Vec::new(vec![3, 1, 2]).unwrap();
    let raw = vector.into_vec();
    assert_eq!(raw, [3, 1, 2]);
    let again = Vec::new(raw).expect("still three elements");
    assert_eq!(again.as_vec(), &[3, 1, 2]);
    let raw: std::vec::Vec<i32> = again.into();
    assert_eq!(raw, [3, 1, 2]);
}

#[test]
fn vec_new_unchecked_wraps_the_elements() {
    assert_eq!(Vec::new_unchecked(vec![1, 2]).into_vec(), [1, 2]);
}

#[test]
fn vec_of_holds_the_single_item() {
    let vector = Vec::of("hello");
    assert_eq!(vector.as_vec(), &["hello"]);
    assert_eq!(vector.len(), 1);
    let roomy = Vec::of_with_capacity("hello", 16);
    assert_eq!(roomy.as_vec(), &["hello"]);
    assert!(roomy.capacity().get() >= 16);
}

#[test]
fn vec_of_extending_puts_the_first_item_first() {
    let vector = Vec::of_extending(1, vec![2, 3].into_iter());
    assert_eq!(vector.as_vec(), &[1, 2, 3]);
    let alone = Vec::of_extending(1, std::vec::Vec::new().into_iter());
    assert_eq!(alone.as_vec(), &[1]);
}

#[test]
fn vec_filled_repeats_the_value() {
    let vector = Vec::filled("x", nz(3));
    assert_eq!(vector.as_vec(), &["x", "x", "x"]);
    assert_eq!(Vec::filled(0u8, nz(1)).as_vec(), &[0]);
}

#[test]
fn vec_filled_with_calls_in_order() {
    let mut next = 0;
    let vector = Vec::filled_with(
        || {
            next += 1;
            next
        },
        nz(3),
    );
    assert_eq!(vector.as_vec(), &[1, 2, 3]);
}

#[test]
fn vec_growth_keeps_it_non_empty_at_every_step() {
    let mut vector = Vec::of(1);
    assert!(vector.len() >= 1);
    vector.push(2);
    assert_eq!(vector.as_vec(), &[1, 2]);
    vector.insert(0, 0);
    assert_eq!(vector.as_vec(), &[0, 1, 2]);
    vector.insert(3, 3);
    assert_eq!(vector.as_vec(), &[0, 1, 2, 3]);
    vector.extend(vec![4, 5].into_iter());
    assert_eq!(vector.as_vec(), &[0, 1, 2, 3, 4, 5]);
    vector.extend(std::vec::Vec::new().into_iter());
    assert_eq!(vector.len(), 6);
    let mut other = vec![6, 7];
    vector.append(&mut other);
    assert!(other.is_empty());
    assert_eq!(vector.as_vec(), &[0, 1, 2, 3, 4, 5, 6, 7]);
    assert_eq!(vector.as_slice_ne().len_ne().get(), 8);
}

#[test]
fn vec_remove_takes_one_element_out() {
    let mut vector = sample();
    assert_eq!(vector.remove(1), 2);
    assert_eq!(vector.as_vec(), &[1, 3, 4]);
    assert_eq!(vector.len(), 3);
    assert_eq!(vector.remove(2), 4);
    assert_eq!(vector.remove(0), 1);
    assert_eq!(vector.as_vec(), &[3]);
}

#[test]
fn vec_swap_remove_puts_the_last_in_place() {
    let mut vector = sample();
    assert_eq!(vector.swap_remove(0), 1);
    assert_eq!(vector.as_vec(), &[4, 2, 3]);
    assert_eq!(vector.swap_remove(2), 3);
    assert_eq!(vector.as_vec(), &[4, 2]);
    assert_eq!(vector.len(), 2);
}

#[test]
fn vec_truncate_shortens_to_the_length() {
    let mut vector = sample();
    vector.truncate(nz(2));
    assert_eq!(vector.as_vec(), &[1, 2]);
    vector.truncate(nz(1));
    assert_eq!(vector.as_vec(), &[1]);
}

#[test]
fn vec_truncate_to_a_greater_length_does_nothing() {
    let mut vector = sample();
    vector.truncate(nz(4));
    assert_eq!(vector.as_vec(), &[1, 2, 3, 4]);
    vector.truncate(nz(100));
    assert_eq!(vector.as_vec(), &[1, 2, 3, 4]);
}

#[test]
fn vec_resize_with_shortens_or_fills() {
    let mut vector = sample();
    vector.resize_with(nz(2), || 0);
    assert_eq!(vector.as_vec(), &[1, 2]);
    let mut next = 10;
    vector.resize_with(nz(4), || {
        next += 1;
        next
    });
    assert_eq!(vector.as_vec(), &[1, 2, 11, 12]);
    vector.resize_with(nz(4), || 0);
    assert_eq!(vector.as_vec(), &[1, 2, 11, 12]);
}

#[test]
fn vec_dedup_keeps_the_first_of_each_run() {
    let mut vector = Vec::new(vec![1, 1, 2, 2, 2, 3, 1]).unwrap();
    vector.dedup_by(|a, b| a == b);
    assert_eq!(vector.as_vec(), &[1, 2, 3, 1]);
    let mut vector = Vec::new(vec![10, 11, 20, 21, 30]).unwrap();
    vector.dedup_by_key(|x| *x / 10);
    assert_eq!(vector.as_vec(), &[10, 20, 30]);
    let mut single = Vec::of(5);
    single.dedup_by(|_, _| true);
    assert_eq!(single.as_vec(), &[5]);
    let mut same = Vec::new(vec![7, 7, 7]).unwrap();
    same.dedup_by_key(|_| 0);
    assert_eq!(same.as_vec(), &[7]);
}

#[test]
fn vec_dedup_compares_with_the_element_kept_before() {
    let mut asked = std::vec::Vec::new();
    let mut vector = Vec::new(vec![1, 1, 1, 2, 3, 3]).unwrap();
    vector.dedup_by(|a, b| {
        asked.push((*a, *b));
        a == b
    });
    assert_eq!(vector.as_vec(), &[1, 2, 3]);
    assert_eq!(asked, [(1, 1), (1, 1), (2, 1), (3, 2), (3, 3)]);
    let mut words = Vec::new(vec!["apple", "avocado", "banana", "blueberry", "apricot"]).unwrap();
    words.dedup_by_key(|word| word.as_bytes()[0]);
    assert_eq!(words.as_vec(), &["apple", "banana", "apricot"]);
}

#[test]
fn vec_capacity_operations_keep_the_elements() {
    let mut vector = sample();
    vector.reserve(100);
    assert!(vector.capacity().get() >= 104);
    assert_eq!(vector.as_vec(), &[1, 2, 3, 4]);
    vector.shrink_to(50);
    assert!(vector.capacity().get() >= 50);
    vector.shrink_to_fit();
    assert!(vector.capacity().get() >= 4);
    assert_eq!(vector.as_vec(), &[1, 2, 3, 4]);
    vector.reserve_exact(10);
    assert!(vector.capacity().get() >= 14);
    assert!(vector.try_reserve(10).is_ok());
    assert!(vector.try_reserve_exact(0).is_ok());
    assert!(vector.try_reserve_exact(20).is_ok());
    assert!(vector.capacity().get() >= 24);
    assert!(vector.try_reserve(usize::MAX).is_err());
    assert!(vector.try_reserve_exact(usize::MAX).is_err());
    assert_eq!(vector.as_vec(), &[1, 2, 3, 4]);
}

#[test]
fn vec_views_share_the_backing_memory() {
    let vector = sample();
    let view = vector.as_slice_ne();
    assert_eq!(view.as_slice().as_ptr(), vector.as_vec().as_ptr());
    assert_eq!(view.as_slice().len(), vector.as_vec().len());
    assert_eq!(vector.as_slice().as_ptr(), vector.as_vec().as_ptr());
    assert_eq!(*view.first(), 1);
    assert_eq!(*view.last(), 4);
}

#[test]
fn vec_mut_view_writes_into_the_vector() {
    let mut vector = sample();
    {
        let mut view = vector.as_mut_slice_ne();
        *view.first_mut() = 10;
        *view.last_mut() = 40;
    }
    assert_eq!(vector.as_vec(), &[10, 2, 3, 40]);
}

#[test]
fn vec_as_mut_vec_reaches_the_vector() {
    let mut vector = sample();
    vector.as_mut_vec().push(5);
    vector.as_mut_vec().sort_by(|a, b| b.cmp(a));
    assert_eq!(vector.as_vec(), &[5, 4, 3, 2, 1]);
}

#[test]
fn vec_into_boxed_slice_keeps_the_elements() {
    let boxed = sample().into_boxed_slice();
    assert_eq!(boxed.as_slice(), &[1, 2, 3, 4]);
    assert_eq!(boxed.as_slice_ne().len_ne().get(), 4);
    let vector = Vec::from(boxed);
    assert_eq!(vector.as_vec(), &[1, 2, 3, 4]);
}

#[test]
fn vec_leak_hands_out_the_elements() {
    let leaked = sample().leak();
    assert_eq!(leaked.as_slice(), &[1, 2, 3, 4]);
    let raw: &'static mut [i32] = leaked.into_mut_slice();
    raw[0] = 9;
    assert_eq!(raw, &[9, 2, 3, 4]);
}

#[test]
fn vec_clone_copies_the_elements() {
    let vector = Vec::new(vec![String::from("a"), String::from("b")]).unwrap();
    let copy = vector.clone();
    assert_eq!(copy.as_vec(), vector.as_vec());
    assert_ne!(copy.as_vec().as_ptr(), vector.as_vec().as_ptr());
}

#[test]
fn vec_into_iter_ne_yields_the_elements_in_order() {
    assert_eq!(sample().into_iter_ne().first(), 1);
    assert_eq!(sample().into_iter_ne().last(), 4);
    assert_eq!(sample().into_iter_ne().relax().collect::<std::vec::Vec<_>>(), [1, 2, 3, 4]);
}

#[test]
fn non_zero_len_excludes_zero() {
    assert!(NonZeroLen::new(0).is_none());
    assert_eq!(NonZeroLen::new(1).unwrap().get(), 1);
    assert_eq!(NonZeroLen::new(usize::MAX).unwrap().get(), usize::MAX);
    assert_eq!(NonZeroLen::new_unchecked(7).get(), 7);
    assert!(nz(1) < nz(2));
    assert_eq!(nz(3), nz(3));
}
