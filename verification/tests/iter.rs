use nunny::NonZeroLen;
use nunny::Slice;
use nunny::Vec;
use std::cmp::Ordering;

fn nz(n: usize) -> NonZeroLen {
    NonZeroLen::new(n).expect("not zero")
}

fn items(values: &[i32]) -> nunny::NonEmpty<std::vec::IntoIter<i32>> {
    Vec::new(values.to_vec()).expect("at least one value").into_iter_ne()
}

#[test]
fn iterator_reduction_after_map() {
    assert_eq!(items(&[5, 1, 9]).map(|x| x * 2).max(), 18);
    assert_eq!(items(&[5, 1, 9]).map(|x| x * 2).first(), 10);
    assert_eq!(items(&[5, 1, 9]).map(|x| x * 2).min(), 2);
    assert_eq!(items(&[5, 1, 9]).map(|x| x * 2).last(), 18);
}

#[test]
fn iterator_first_and_last() {
    assert_eq!(items(&[1, 2, 3]).first(), 1);
    assert_eq!(items(&[1, 2, 3]).last(), 3);
    assert_eq!(items(&[7]).first(), 7);
    assert_eq!(items(&[7]).last(), 7);
}

#[test]
fn iterator_map_calls_in_order_and_keeps_the_count() {
    let mut seen = std::vec::Vec::new();
    let mapped = items(&[1, 2, 3]).map(|x| {
        seen.push(x);
        x.to_string()
    });
    assert_eq!(mapped.collect_vec().into_vec(), ["1", "2", "3"]);
    assert_eq!(seen, [1, 2, 3]);
}

#[test]
fn iterator_chain_appends() {
    let chained = items(&[1, 2]).chain(vec![3].into_iter());
    assert_eq!(chained.collect_vec().into_vec(), [1, 2, 3]);
    let chained = items(&[1, 2]).chain(std::vec::Vec::new().into_iter());
    assert_eq!(chained.last(), 2);
}

#[test]
fn iterator_enumerate_counts_from_zero() {
    let letters = Vec::new(vec!['a', 'b']).unwrap();
    assert_eq!(letters.clone().into_iter_ne().enumerate().last(), (1, 'b'));
    assert_eq!(letters.into_iter_ne().enumerate().collect_vec().into_vec(), [(0, 'a'), (1, 'b')]);
}

#[test]
fn iterator_peek_and_peek_mut() {
    let mut peeked = Vec::new(vec!['a', 'b']).unwrap().into_iter_ne().peekable();
    assert_eq!(*peeked.peek(), 'a');
    assert_eq!(*peeked.peek(), 'a');
    *peeked.peek_mut() = 'b';
    assert_eq!(peeked.collect_vec().into_vec(), ['b', 'b']);
}

#[test]
fn iterator_take_is_bounded() {
    assert_eq!(items(&[1, 2, 3]).take(nz(1)).collect_vec().into_vec(), [1]);
    assert_eq!(items(&[1, 2, 3]).take(nz(2)).last(), 2);
    assert_eq!(items(&[1, 2, 3]).take(nz(3)).collect_vec().into_vec(), [1, 2, 3]);
    assert_eq!(items(&[1, 2, 3]).take(nz(10)).collect_vec().into_vec(), [1, 2, 3]);
}

#[test]
fn iterator_flatten_joins_the_inner_iterators() {
    let nested = Vec::new(vec![items(&[1]), items(&[2, 3])]).unwrap();
    assert_eq!(nested.into_iter_ne().flatten().collect_vec().into_vec(), [1, 2, 3]);
    let single = Vec::of(items(&[4, 5]));
    assert_eq!(single.into_iter_ne().flatten().first(), 4);
}

#[test]
fn iterator_fuse_and_inspect_keep_the_items() {
    assert_eq!(items(&[1, 2, 3]).fuse().collect_vec().into_vec(), [1, 2, 3]);
    let mut seen = std::vec::Vec::new();
    let inspected = items(&[1, 2, 3]).inspect(|x| seen.push(*x));
    assert_eq!(inspected.collect_vec().into_vec(), [1, 2, 3]);
    assert_eq!(seen, [1, 2, 3]);
}

#[test]
fn iterator_rev_turns_the_order() {
    assert_eq!(items(&[1, 2, 3]).rev().collect_vec().into_vec(), [3, 2, 1]);
    assert_eq!(items(&[1, 2, 3]).rev().first(), 3);
}

#[test]
fn iterator_copied_and_cloned_own_the_items() {
    let raw = [1, 2, 3];
    let view = Slice::new(&raw[..]).unwrap();
    assert_eq!(view.iter_ne().copied().collect_vec().into_vec(), [1, 2, 3]);
    let words = [String::from("a"), String::from("b")];
    let view = Slice::new(&words[..]).unwrap();
    assert_eq!(view.iter_ne().cloned().last(), "b");
}

#[test]
fn iterator_cycle_starts_over() {
    let cycled = items(&[1, 2]).cycle();
    let taken: std::vec::Vec<i32> = cycled.relax().take(5).collect();
    assert_eq!(taken, [1, 2, 1, 2, 1]);
    assert_eq!(items(&[1, 2]).cycle().take(nz(3)).collect_vec().into_vec(), [1, 2, 1]);
}

#[test]
fn iterator_reduce_folds_from_the_front() {
    assert_eq!(items(&[1, 2, 3, 4]).reduce(|a, b| a * 10 + b), 1234);
    assert_eq!(items(&[7]).reduce(|_, _| 0), 7);
    assert_eq!(items(&[3, 1, 2]).reduce(std::cmp::min), 1);
}

#[test]
fn iterator_max_returns_the_last_of_equals() {
    let pairs = Vec::new(vec![(1, 'a'), (2, 'b'), (2, 'c'), (0, 'd')]).unwrap();
    assert_eq!(pairs.clone().into_iter_ne().max_by_key(|p| p.0), (2, 'c'));
    assert_eq!(pairs.clone().into_iter_ne().max_by(|a, b| a.0.cmp(&b.0)), (2, 'c'));
    assert_eq!(pairs.into_iter_ne().max(), (2, 'c'));
    assert_eq!(items(&[3, 9, 4]).max(), 9);
}

#[test]
fn iterator_min_returns_the_first_of_equals() {
    let pairs = Vec::new(vec![(1, 'a'), (0, 'b'), (0, 'c'), (2, 'd')]).unwrap();
    assert_eq!(pairs.clone().into_iter_ne().min_by_key(|p| p.0), (0, 'b'));
    assert_eq!(pairs.clone().into_iter_ne().min_by(|a, b| a.0.cmp(&b.0)), (0, 'b'));
    assert_eq!(pairs.into_iter_ne().min(), (0, 'b'));
    assert_eq!(items(&[3, 9, 4]).min(), 3);
}

#[test]
fn iterator_by_key_calls_the_key_once_for_each_item() {
    let mut calls = 0;
    let greatest = items(&[3, 9, 4]).max_by_key(|x| {
        calls += 1;
        -*x
    });
    assert_eq!(greatest, 3);
    assert_eq!(calls, 3);
    let mut calls = 0;
    let least = items(&[3, 9, 4]).min_by_key(|x| {
        calls += 1;
        -*x
    });
    assert_eq!(least, 9);
    assert_eq!(calls, 3);
}

#[test]
fn iterator_by_comparator_follows_the_comparator() {
    let reversed = |a: &i32, b: &i32| -> Ordering { b.cmp(a) };
    assert_eq!(items(&[3, 9, 4]).max_by(reversed), 3);
    assert_eq!(items(&[3, 9, 4]).min_by(reversed), 9);
}

#[test]
fn iterator_collect_vec_keeps_the_order() {
    let collected = items(&[3, 1, 2]).collect_vec();
    assert_eq!(collected.as_vec(), &[3, 1, 2]);
    assert_eq!(collected.len(), 3);
}

#[test]
fn iterator_try_collect_vec_stops_at_the_first_error() {
    let good: Vec<Result<i32, &str>> = Vec::new(vec![Ok(1), Ok(2)]).unwrap();
    assert_eq!(good.into_iter_ne().try_collect_vec().unwrap().into_vec(), [1, 2]);
    let bad: Vec<Result<i32, &str>> =
        Vec::new(vec![Ok(1), Err("first"), Ok(3), Err("second")]).unwrap();
    assert_eq!(bad.into_iter_ne().try_collect_vec().unwrap_err(), "first");
}

#[test]
fn iterator_unzip_vec_splits_the_pairs() {
    let pairs = Vec::new(vec![(1, 'a'), (2, 'b')]).unwrap();
    let (numbers, letters) = pairs.into_iter_ne().unzip_vec();
    assert_eq!(numbers.into_vec(), [1, 2]);
    assert_eq!(letters.into_vec(), ['a', 'b']);
}

#[test]
fn iterator_relax_gives_the_plain_iterator() {
    let evens: std::vec::Vec<i32> = items(&[1, 2, 3, 4]).relax().filter(|x| x % 2 == 0).collect();
    assert_eq!(evens, [2, 4]);
}
