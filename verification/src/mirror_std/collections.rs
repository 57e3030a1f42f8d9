//! The conversions from a non-empty array into the collections of the
//! standard library that can be built element by element.

use crate::array::Array;
use std::collections::BTreeMap;
use std::collections::BTreeSet;
use std::collections::HashMap;
use std::collections::HashSet;
use std::collections::VecDeque;
use std::hash::Hash;
use std::hash::RandomState;
use vstd::laws_cmp::obeys_cmp;
use vstd::prelude::*;
use vstd::std_specs::convert::FromSpecImpl;
use vstd::std_specs::hash::builds_valid_hashers;
use vstd::std_specs::hash::obeys_key_model;
use vstd::std_specs::iter::IteratorSpec;

verus! {

/// The map that holds, for every key among the first `count` of `pairs`, the
/// value of the last pair with that key.
pub open spec fn map_of<K, V>(pairs: Seq<(K, V)>, count: int) -> Map<K, V>
    decreases count,
{
    if count <= 0 {
        Map::empty()
    } else {
        map_of(pairs, count - 1).insert(pairs[count - 1].0, pairs[count - 1].1)
    }
}

/// The set that holds the first `count` of `items`.
pub open spec fn set_of<T>(items: Seq<T>, count: int) -> Set<T>
    decreases count,
{
    if count <= 0 {
        Set::empty()
    } else {
        set_of(items, count - 1).insert(items[count - 1])
    }
}

/// The map that holds, for every key among `pairs`, the value of the last
/// pair with that key.
pub open spec fn map_of_all<K, V>(pairs: Seq<(K, V)>) -> Map<K, V> {
    map_of(pairs, pairs.len() as int)
}

/// The set that holds the `items`.
pub open spec fn set_of_all<T>(items: Seq<T>) -> Set<T> {
    set_of(items, items.len() as int)
}

/// Collects the items of `iter` into a double-ended queue, in order.
fn collect_deque<I: Iterator>(iter: I) -> (r: VecDeque<I::Item>)
    requires
        iter.obeys_prophetic_iter_laws(),
        iter.decrease() is Some,
    ensures
        r@ == iter.remaining(),
{
    let mut iter = iter;
    let ghost all = iter.remaining();
    let ghost mut k: int = 0;
    let mut queue: VecDeque<I::Item> = VecDeque::new();
    loop
        invariant
            iter.obeys_prophetic_iter_laws(),
            iter.decrease() is Some,
            0 <= k <= all.len(),
            iter.remaining() == all.skip(k),
            queue@ == all.take(k),
        ensures
            queue@ == all,
        decreases iter.decrease()->0,
    {
        match iter.next() {
            Some(item) => {
                queue.push_back(item);
                proof {
                    assert(all.skip(k).drop_first() =~= all.skip(k + 1));
                    assert(all.take(k).push(all[k]) =~= all.take(k + 1));
                    k = k + 1;
                }
            },
            None => {
                assert(all.take(k) =~= all);
                break ;
            },
        }
    }
    queue
}

/// Collects the pairs of `iter` into a hash map. Of two pairs with the same
/// key, the later one stays.
fn collect_hash_map<K: Eq + Hash, V, I: Iterator<Item = (K, V)>>(iter: I) -> (r: HashMap<K, V>)
    requires
        iter.obeys_prophetic_iter_laws(),
        iter.decrease() is Some,
    ensures
        obeys_key_model::<K>() && builds_valid_hashers::<RandomState>() ==> r@ == map_of_all(
            iter.remaining(),
        ),
{
    let mut iter = iter;
    let ghost all = iter.remaining();
    let ghost mut k: int = 0;
    let mut map: HashMap<K, V> = HashMap::new();
    loop
        invariant
            iter.obeys_prophetic_iter_laws(),
            iter.decrease() is Some,
            0 <= k <= all.len(),
            iter.remaining() == all.skip(k),
            obeys_key_model::<K>() && builds_valid_hashers::<RandomState>() ==> map@ == map_of(
                all,
                k,
            ),
        ensures
            obeys_key_model::<K>() && builds_valid_hashers::<RandomState>() ==> map@ == map_of_all(
                all,
            ),
        decreases iter.decrease()->0,
    {
        match iter.next() {
            Some((key, value)) => {
                proof {
                    assert(all.skip(k)[0] == all[k]);
                }
                map.insert(key, value);
                proof {
                    assert(all.skip(k).drop_first() =~= all.skip(k + 1));
                    k = k + 1;
                }
            },
            None => {
                break ;
            },
        }
    }
    map
}

/// Collects the items of `iter` into a hash set.
fn collect_hash_set<T: Eq + Hash, I: Iterator<Item = T>>(iter: I) -> (r: HashSet<T>)
    requires
        iter.obeys_prophetic_iter_laws(),
        iter.decrease() is Some,
    ensures
        obeys_key_model::<T>() && builds_valid_hashers::<RandomState>() ==> r@ == set_of_all(
            iter.remaining(),
        ),
{
    let mut iter = iter;
    let ghost all = iter.remaining();
    let ghost mut k: int = 0;
    let mut set: HashSet<T> = HashSet::new();
    loop
        invariant
            iter.obeys_prophetic_iter_laws(),
            iter.decrease() is Some,
            0 <= k <= all.len(),
            iter.remaining() == all.skip(k),
            obeys_key_model::<T>() && builds_valid_hashers::<RandomState>() ==> set@ == set_of(
                all,
                k,
            ),
        ensures
            obeys_key_model::<T>() && builds_valid_hashers::<RandomState>() ==> set@ == set_of_all(
                all,
            ),
        decreases iter.decrease()->0,
    {
        match iter.next() {
            Some(item) => {
                proof {
                    assert(all.skip(k)[0] == all[k]);
                }
                set.insert(item);
                proof {
                    assert(all.skip(k).drop_first() =~= all.skip(k + 1));
                    k = k + 1;
                }
            },
            None => {
                break ;
            },
        }
    }
    set
}

/// Collects the pairs of `iter` into a ordered map. Of two pairs with the same
/// key, the later one stays.
fn collect_btree_map<K: Ord, V, I: Iterator<Item = (K, V)>>(iter: I) -> (r: BTreeMap<K, V>)
    requires
        iter.obeys_prophetic_iter_laws(),
        iter.decrease() is Some,
    ensures
        obeys_cmp::<K>() ==> r@ == map_of_all(
            iter.remaining(),
        ),
{
    let mut iter = iter;
    let ghost all = iter.remaining();
    let ghost mut k: int = 0;
    let mut map: BTreeMap<K, V> = BTreeMap::new();
    loop
        invariant
            iter.obeys_prophetic_iter_laws(),
            iter.decrease() is Some,
            0 <= k <= all.len(),
            iter.remaining() == all.skip(k),
            obeys_cmp::<K>() ==> map@ == map_of(
                all,
                k,
            ),
        ensures
            obeys_cmp::<K>() ==> map@ == map_of_all(
                all,
            ),
        decreases iter.decrease()->0,
    {
        match iter.next() {
            Some((key, value)) => {
                proof {
                    assert(all.skip(k)[0] == all[k]);
                }
                map.insert(key, value);
                proof {
                    assert(all.skip(k).drop_first() =~= all.skip(k + 1));
                    k = k + 1;
                }
            },
            None => {
                break ;
            },
        }
    }
    map
}

/// Collects the items of `iter` into a ordered set.
fn collect_btree_set<T: Ord, I: Iterator<Item = T>>(iter: I) -> (r: BTreeSet<T>)
    requires
        iter.obeys_prophetic_iter_laws(),
        iter.decrease() is Some,
    ensures
        obeys_cmp::<T>() ==> r@ == set_of_all(
            iter.remaining(),
        ),
{
    let mut iter = iter;
    let ghost all = iter.remaining();
    let ghost mut k: int = 0;
    let mut set: BTreeSet<T> = BTreeSet::new();
    loop
        invariant
            iter.obeys_prophetic_iter_laws(),
            iter.decrease() is Some,
            0 <= k <= all.len(),
            iter.remaining() == all.skip(k),
            obeys_cmp::<T>() ==> set@ == set_of(
                all,
                k,
            ),
        ensures
            obeys_cmp::<T>() ==> set@ == set_of_all(
                all,
            ),
        decreases iter.decrease()->0,
    {
        match iter.next() {
            Some(item) => {
                proof {
                    assert(all.skip(k)[0] == all[k]);
                }
                set.insert(item);
                proof {
                    assert(all.skip(k).drop_first() =~= all.skip(k + 1));
                    k = k + 1;
                }
            },
            None => {
                break ;
            },
        }
    }
    set
}

impl<T, const N: usize> From<Array<T, N>> for VecDeque<T> {
    /// Moves the elements of the array into a double-ended queue, in order.
    fn from(value: Array<T, N>) -> (r: Self)
        ensures
            r@ == value@,
    {
        collect_deque(value.into_iter())
    }
}

impl<T, const N: usize> FromSpecImpl<Array<T, N>> for VecDeque<T> {
    /// The queue is a new allocation, which no function of the array names.
    open spec fn obeys_from_spec() -> bool {
        false
    }

    open spec fn from_spec(value: Array<T, N>) -> Self {
        arbitrary()
    }
}

impl<K: Eq + Hash, V, const N: usize> From<Array<(K, V), N>> for HashMap<K, V, RandomState> {
    /// Moves the pairs of the array into a hash map. Of two pairs with the
    /// same key, the later one stays.
    fn from(value: Array<(K, V), N>) -> (r: Self)
        ensures
            obeys_key_model::<K>() && builds_valid_hashers::<RandomState>() ==> r@ == map_of_all(
                value@,
            ),
    {
        collect_hash_map(value.into_iter())
    }
}

impl<K: Eq + Hash, V, const N: usize> FromSpecImpl<Array<(K, V), N>> for HashMap<K, V, RandomState> {
    /// The map is a new allocation, which no function of the array names.
    open spec fn obeys_from_spec() -> bool {
        false
    }

    open spec fn from_spec(value: Array<(K, V), N>) -> Self {
        arbitrary()
    }
}

impl<T: Eq + Hash, const N: usize> From<Array<T, N>> for HashSet<T, RandomState> {
    /// Moves the elements of the array into a hash set.
    fn from(value: Array<T, N>) -> (r: Self)
        ensures
            obeys_key_model::<T>() && builds_valid_hashers::<RandomState>() ==> r@ == set_of_all(
                value@,
            ),
    {
        collect_hash_set(value.into_iter())
    }
}

impl<T: Eq + Hash, const N: usize> FromSpecImpl<Array<T, N>> for HashSet<T, RandomState> {
    /// The set is a new allocation, which no function of the array names.
    open spec fn obeys_from_spec() -> bool {
        false
    }

    open spec fn from_spec(value: Array<T, N>) -> Self {
        arbitrary()
    }
}

impl<K: Ord, V, const N: usize> From<Array<(K, V), N>> for BTreeMap<K, V> {
    /// Moves the pairs of the array into a ordered map. Of two pairs with the
    /// same key, the later one stays.
    fn from(value: Array<(K, V), N>) -> (r: Self)
        ensures
            obeys_cmp::<K>() ==> r@ == map_of_all(
                value@,
            ),
    {
        collect_btree_map(value.into_iter())
    }
}

impl<K: Ord, V, const N: usize> FromSpecImpl<Array<(K, V), N>> for BTreeMap<K, V> {
    /// The map is a new allocation, which no function of the array names.
    open spec fn obeys_from_spec() -> bool {
        false
    }

    open spec fn from_spec(value: Array<(K, V), N>) -> Self {
        arbitrary()
    }
}

impl<T: Ord, const N: usize> From<Array<T, N>> for BTreeSet<T> {
    /// Moves the elements of the array into a ordered set.
    fn from(value: Array<T, N>) -> (r: Self)
        ensures
            obeys_cmp::<T>() ==> r@ == set_of_all(
                value@,
            ),
    {
        collect_btree_set(value.into_iter())
    }
}

impl<T: Ord, const N: usize> FromSpecImpl<Array<T, N>> for BTreeSet<T> {
    /// The set is a new allocation, which no function of the array names.
    open spec fn obeys_from_spec() -> bool {
        false
    }

    open spec fn from_spec(value: Array<T, N>) -> Self {
        arbitrary()
    }
}

} // verus!
