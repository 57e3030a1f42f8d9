//! The methods of a non-empty iterator that bring its items down to one.

use crate::iter::NonEmpty;
use core::cmp::Ordering;
use vstd::prelude::*;
use vstd::std_specs::cmp::OrdSpec;
use vstd::std_specs::iter::IteratorSpec;

verus! {

/// `r` is what is left after the items of `s` were combined by `f` from the
/// front: the first item alone, or `f` of what the items before the last
/// gave and the last item.
pub open spec fn reduces_to<T, F: FnMut(T, T) -> T>(s: Seq<T>, f: F, r: T) -> bool
    decreases s.len(),
{
    if s.len() <= 1 {
        s.len() == 1 && r == s[0]
    } else {
        exists|before: T|
            #![trigger call_ensures(f, (before, s.last()), r)]
            reduces_to(s.drop_last(), f, before) && call_ensures(f, (before, s.last()), r)
    }
}

/// The greatest item of `s`, and of several that are equally great the last.
pub open spec fn seq_max<T: Ord>(s: Seq<T>) -> T
    decreases s.len(),
{
    if s.len() <= 1 {
        s[0]
    } else {
        let before = seq_max(s.drop_last());
        match before.cmp_spec(&s.last()) {
            Ordering::Greater => before,
            _ => s.last(),
        }
    }
}

/// The least item of `s`, and of several that are equally small the first.
pub open spec fn seq_min<T: Ord>(s: Seq<T>) -> T
    decreases s.len(),
{
    if s.len() <= 1 {
        s[0]
    } else {
        let before = seq_min(s.drop_last());
        match before.cmp_spec(&s.last()) {
            Ordering::Greater => s.last(),
            _ => before,
        }
    }
}

/// `r` is the item of `s` that `compare` finds greatest, and of several that
/// it finds equally great the last.
pub open spec fn is_max_by<T, F: FnMut(&T, &T) -> Ordering>(s: Seq<T>, compare: F, r: T) -> bool
    decreases s.len(),
{
    if s.len() <= 1 {
        s.len() == 1 && r == s[0]
    } else {
        exists|before: T, found: Ordering|
            #![trigger call_ensures(compare, (&before, &s.last()), found)]
            {
                &&& is_max_by(s.drop_last(), compare, before)
                &&& call_ensures(compare, (&before, &s.last()), found)
                &&& r == match found {
                    Ordering::Greater => before,
                    _ => s.last(),
                }
            }
    }
}

/// `r` is the item of `s` that `compare` finds least, and of several that it
/// finds equally small the first.
pub open spec fn is_min_by<T, F: FnMut(&T, &T) -> Ordering>(s: Seq<T>, compare: F, r: T) -> bool
    decreases s.len(),
{
    if s.len() <= 1 {
        s.len() == 1 && r == s[0]
    } else {
        exists|before: T, found: Ordering|
            #![trigger call_ensures(compare, (&before, &s.last()), found)]
            {
                &&& is_min_by(s.drop_last(), compare, before)
                &&& call_ensures(compare, (&before, &s.last()), found)
                &&& r == match found {
                    Ordering::Greater => s.last(),
                    _ => before,
                }
            }
    }
}

/// `keys` holds, for each item of `s`, a key that `f` returns for it.
pub open spec fn keyed_by<T, B, F: FnMut(&T) -> B>(s: Seq<T>, f: F, keys: Seq<B>) -> bool {
    &&& keys.len() == s.len()
    &&& forall|i: int| 0 <= i < s.len() ==> call_ensures(f, (&s[i],), #[trigger] keys[i])
}

/// The item of `s` at `index`, which is an index of `s`.
pub open spec fn item_at<T>(s: Seq<T>, index: int, r: T) -> bool {
    0 <= index < s.len() && r == s[index]
}

/// The index of the greatest of `keys`, and of several that are equally
/// great the last.
pub open spec fn last_max_index<B: Ord>(keys: Seq<B>) -> int
    decreases keys.len(),
{
    if keys.len() <= 1 {
        0
    } else {
        let before = last_max_index(keys.drop_last());
        match keys[before].cmp_spec(&keys.last()) {
            Ordering::Greater => before,
            _ => keys.len() - 1,
        }
    }
}

/// The index of the least of `keys`, and of several that are equally small
/// the first.
pub open spec fn first_min_index<B: Ord>(keys: Seq<B>) -> int
    decreases keys.len(),
{
    if keys.len() <= 1 {
        0
    } else {
        let before = first_min_index(keys.drop_last());
        match keys[before].cmp_spec(&keys.last()) {
            Ordering::Greater => keys.len() - 1,
            _ => before,
        }
    }
}

/// One item more of `all` is taken: what was skipped loses its first item,
/// and what was taken gains it.
proof fn lemma_take_step<T>(all: Seq<T>, k: int)
    requires
        0 <= k < all.len(),
    ensures
        all.skip(k).len() == all.len() - k,
        all.skip(k)[0] == all[k],
        all.skip(k).drop_first() == all.skip(k + 1),
        all.take(k + 1).drop_last() == all.take(k),
        all.take(k + 1).last() == all[k],
        all.take(k + 1).len() == k + 1,
{
    assert(all.skip(k).drop_first() =~= all.skip(k + 1));
    assert(all.take(k + 1).drop_last() =~= all.take(k));
}

/// One more item is combined with what the items before it gave.
proof fn lemma_reduces_step<T, F: FnMut(T, T) -> T>(s: Seq<T>, f: F, before: T, r: T)
    requires
        s.len() >= 2,
        reduces_to(s.drop_last(), f, before),
        call_ensures(f, (before, s.last()), r),
    ensures
        reduces_to(s, f, r),
{
}

impl<I: Iterator> NonEmpty<I> {
    /// Combines the items by `f` from the front until one is left, and
    /// returns it.
    pub fn reduce<F>(self, f: F) -> (r: I::Item) where F: FnMut(I::Item, I::Item) -> I::Item
        requires
            self.lawful(),
            self@.remaining().len() >= 1,
            forall|a: I::Item, b: I::Item| call_requires(f, (a, b)),
        ensures
            reduces_to(self@.remaining(), f, r),
    {
        let ghost given = f;
        let mut f = f;
        let mut inner = self.relax();
        let ghost all = inner.remaining();
        let mut current = match inner.next() {
            Some(item) => item,
            None => unreached(),
        };
        let ghost mut k: int = 1;
        proof {
            lemma_take_step(all, 0);
        }
        loop
            invariant
                f == given,
                forall|a: I::Item, b: I::Item| call_requires(f, (a, b)),
                inner.obeys_prophetic_iter_laws(),
                inner.decrease() is Some,
                1 <= k <= all.len(),
                inner.remaining() == all.skip(k),
                reduces_to(all.take(k), f, current),
            ensures
                reduces_to(all, given, current),
            decreases inner.decrease()->0,
        {
            match inner.next() {
                Some(item) => {
                    let ghost before = current;
                    current = f(current, item);
                    proof {
                        lemma_take_step(all, k);
                        lemma_reduces_step(all.take(k + 1), f, before, current);
                        k = k + 1;
                    }
                },
                None => {
                    assert(all.take(k) =~= all);
                    break ;
                },
            }
        }
        current
    }

    /// Returns the greatest item. Of several that are equally great, the
    /// last is returned.
    pub fn max(self) -> (r: I::Item) where I::Item: Ord
        requires
            self.lawful(),
            self@.remaining().len() >= 1,
        ensures
            <I::Item>::obeys_cmp_spec() ==> r == seq_max(self@.remaining()),
    {
        let mut inner = self.relax();
        let ghost all = inner.remaining();
        let mut current = match inner.next() {
            Some(item) => item,
            None => unreached(),
        };
        let ghost mut k: int = 1;
        proof {
            lemma_take_step(all, 0);
        }
        loop
            invariant
                inner.obeys_prophetic_iter_laws(),
                inner.decrease() is Some,
                1 <= k <= all.len(),
                inner.remaining() == all.skip(k),
                <I::Item>::obeys_cmp_spec() ==> current == seq_max(all.take(k)),
            ensures
                <I::Item>::obeys_cmp_spec() ==> current == seq_max(all),
            decreases inner.decrease()->0,
        {
            match inner.next() {
                Some(item) => {
                    proof {
                        lemma_take_step(all, k);
                    }
                    match current.cmp(&item) {
                        Ordering::Greater => {},
                        _ => {
                            current = item;
                        },
                    }
                    proof {
                        k = k + 1;
                    }
                },
                None => {
                    assert(all.take(k) =~= all);
                    break ;
                },
            }
        }
        current
    }

    /// Returns the least item. Of several that are equally small, the first
    /// is returned.
    pub fn min(self) -> (r: I::Item) where I::Item: Ord
        requires
            self.lawful(),
            self@.remaining().len() >= 1,
        ensures
            <I::Item>::obeys_cmp_spec() ==> r == seq_min(self@.remaining()),
    {
        let mut inner = self.relax();
        let ghost all = inner.remaining();
        let mut current = match inner.next() {
            Some(item) => item,
            None => unreached(),
        };
        let ghost mut k: int = 1;
        proof {
            lemma_take_step(all, 0);
        }
        loop
            invariant
                inner.obeys_prophetic_iter_laws(),
                inner.decrease() is Some,
                1 <= k <= all.len(),
                inner.remaining() == all.skip(k),
                <I::Item>::obeys_cmp_spec() ==> current == seq_min(all.take(k)),
            ensures
                <I::Item>::obeys_cmp_spec() ==> current == seq_min(all),
            decreases inner.decrease()->0,
        {
            match inner.next() {
                Some(item) => {
                    proof {
                        lemma_take_step(all, k);
                    }
                    match current.cmp(&item) {
                        Ordering::Greater => {
                            current = item;
                        },
                        _ => {},
                    }
                    proof {
                        k = k + 1;
                    }
                },
                None => {
                    assert(all.take(k) =~= all);
                    break ;
                },
            }
        }
        current
    }

    /// Returns the item that `compare` finds greatest. Of several that it
    /// finds equally great, the last is returned.
    pub fn max_by<F>(self, compare: F) -> (r: I::Item) where
        F: FnMut(&I::Item, &I::Item) -> Ordering,

        requires
            self.lawful(),
            self@.remaining().len() >= 1,
            forall|a: I::Item, b: I::Item| call_requires(compare, (&a, &b)),
        ensures
            is_max_by(self@.remaining(), compare, r),
    {
        let ghost given = compare;
        let mut compare = compare;
        let mut inner = self.relax();
        let ghost all = inner.remaining();
        let mut current = match inner.next() {
            Some(item) => item,
            None => unreached(),
        };
        let ghost mut k: int = 1;
        proof {
            lemma_take_step(all, 0);
        }
        loop
            invariant
                compare == given,
                forall|a: I::Item, b: I::Item| call_requires(compare, (&a, &b)),
                inner.obeys_prophetic_iter_laws(),
                inner.decrease() is Some,
                1 <= k <= all.len(),
                inner.remaining() == all.skip(k),
                is_max_by(all.take(k), compare, current),
            ensures
                is_max_by(all, given, current),
            decreases inner.decrease()->0,
        {
            match inner.next() {
                Some(item) => {
                    proof {
                        lemma_take_step(all, k);
                    }
                    match compare(&current, &item) {
                        Ordering::Greater => {},
                        _ => {
                            current = item;
                        },
                    }
                    proof {
                        k = k + 1;
                    }
                },
                None => {
                    assert(all.take(k) =~= all);
                    break ;
                },
            }
        }
        current
    }

    /// Returns the item that `compare` finds least. Of several that it finds
    /// equally small, the first is returned.
    pub fn min_by<F>(self, compare: F) -> (r: I::Item) where
        F: FnMut(&I::Item, &I::Item) -> Ordering,

        requires
            self.lawful(),
            self@.remaining().len() >= 1,
            forall|a: I::Item, b: I::Item| call_requires(compare, (&a, &b)),
        ensures
            is_min_by(self@.remaining(), compare, r),
    {
        let ghost given = compare;
        let mut compare = compare;
        let mut inner = self.relax();
        let ghost all = inner.remaining();
        let mut current = match inner.next() {
            Some(item) => item,
            None => unreached(),
        };
        let ghost mut k: int = 1;
        proof {
            lemma_take_step(all, 0);
        }
        loop
            invariant
                compare == given,
                forall|a: I::Item, b: I::Item| call_requires(compare, (&a, &b)),
                inner.obeys_prophetic_iter_laws(),
                inner.decrease() is Some,
                1 <= k <= all.len(),
                inner.remaining() == all.skip(k),
                is_min_by(all.take(k), compare, current),
            ensures
                is_min_by(all, given, current),
            decreases inner.decrease()->0,
        {
            match inner.next() {
                Some(item) => {
                    proof {
                        lemma_take_step(all, k);
                    }
                    match compare(&current, &item) {
                        Ordering::Greater => {
                            current = item;
                        },
                        _ => {},
                    }
                    proof {
                        k = k + 1;
                    }
                },
                None => {
                    assert(all.take(k) =~= all);
                    break ;
                },
            }
        }
        current
    }

    /// Returns the item for which `f` returns the greatest key. Of several
    /// with equally great keys, the last is returned. `f` is called once
    /// for each item.
    pub fn max_by_key<B, F>(self, f: F) -> (r: I::Item) where B: Ord, F: FnMut(&I::Item) -> B
        requires
            self.lawful(),
            self@.remaining().len() >= 1,
            forall|a: I::Item| call_requires(f, (&a,)),
        ensures
            B::obeys_cmp_spec() ==> exists|keys: Seq<B>|
                #![trigger keyed_by(self@.remaining(), f, keys)]
                keyed_by(self@.remaining(), f, keys) && item_at(
                    self@.remaining(),
                    last_max_index(keys),
                    r,
                ),
    {
        let ghost given = f;
        let mut f = f;
        let mut inner = self.relax();
        let ghost all = inner.remaining();
        let mut current = match inner.next() {
            Some(item) => item,
            None => unreached(),
        };
        let mut current_key = f(&current);
        let ghost mut keys: Seq<B> = seq![current_key];
        let ghost mut k: int = 1;
        proof {
            lemma_take_step(all, 0);
        }
        loop
            invariant
                f == given,
                forall|a: I::Item| call_requires(f, (&a,)),
                inner.obeys_prophetic_iter_laws(),
                inner.decrease() is Some,
                1 <= k <= all.len(),
                inner.remaining() == all.skip(k),
                keyed_by(all.take(k), f, keys),
                B::obeys_cmp_spec() ==> 0 <= last_max_index(keys) < k,
                B::obeys_cmp_spec() ==> current == all[last_max_index(keys)],
                B::obeys_cmp_spec() ==> current_key == keys[last_max_index(keys)],
            ensures
                keyed_by(all, given, keys),
                B::obeys_cmp_spec() ==> current == all[last_max_index(keys)],
            decreases inner.decrease()->0,
        {
            match inner.next() {
                Some(item) => {
                    let key = f(&item);
                    proof {
                        lemma_take_step(all, k);
                        let longer = keys.push(key);
                        assert(longer.drop_last() =~= keys);
                        assert(keyed_by(all.take(k + 1), f, longer)) by {
                            assert forall|i: int| 0 <= i < k + 1 implies call_ensures(
                                f,
                                (&all.take(k + 1)[i],),
                                #[trigger] longer[i],
                            ) by {
                                if i < k {
                                    assert(longer[i] == keys[i]);
                                    assert(all.take(k + 1)[i] == all.take(k)[i]);
                                }
                            }
                        }
                        keys = longer;
                    }
                    match current_key.cmp(&key) {
                        Ordering::Greater => {},
                        _ => {
                            current = item;
                            current_key = key;
                        },
                    }
                    proof {
                        k = k + 1;
                    }
                },
                None => {
                    assert(all.take(k) =~= all);
                    break ;
                },
            }
        }
        current
    }

    /// Returns the item for which `f` returns the least key. Of several
    /// with equally small keys, the first is returned. `f` is called once
    /// for each item.
    pub fn min_by_key<B, F>(self, f: F) -> (r: I::Item) where B: Ord, F: FnMut(&I::Item) -> B
        requires
            self.lawful(),
            self@.remaining().len() >= 1,
            forall|a: I::Item| call_requires(f, (&a,)),
        ensures
            B::obeys_cmp_spec() ==> exists|keys: Seq<B>|
                #![trigger keyed_by(self@.remaining(), f, keys)]
                keyed_by(self@.remaining(), f, keys) && item_at(
                    self@.remaining(),
                    first_min_index(keys),
                    r,
                ),
    {
        let ghost given = f;
        let mut f = f;
        let mut inner = self.relax();
        let ghost all = inner.remaining();
        let mut current = match inner.next() {
            Some(item) => item,
            None => unreached(),
        };
        let mut current_key = f(&current);
        let ghost mut keys: Seq<B> = seq![current_key];
        let ghost mut k: int = 1;
        proof {
            lemma_take_step(all, 0);
        }
        loop
            invariant
                f == given,
                forall|a: I::Item| call_requires(f, (&a,)),
                inner.obeys_prophetic_iter_laws(),
                inner.decrease() is Some,
                1 <= k <= all.len(),
                inner.remaining() == all.skip(k),
                keyed_by(all.take(k), f, keys),
                B::obeys_cmp_spec() ==> 0 <= first_min_index(keys) < k,
                B::obeys_cmp_spec() ==> current == all[first_min_index(keys)],
                B::obeys_cmp_spec() ==> current_key == keys[first_min_index(keys)],
            ensures
                keyed_by(all, given, keys),
                B::obeys_cmp_spec() ==> current == all[first_min_index(keys)],
            decreases inner.decrease()->0,
        {
            match inner.next() {
                Some(item) => {
                    let key = f(&item);
                    proof {
                        lemma_take_step(all, k);
                        let longer = keys.push(key);
                        assert(longer.drop_last() =~= keys);
                        assert(keyed_by(all.take(k + 1), f, longer)) by {
                            assert forall|i: int| 0 <= i < k + 1 implies call_ensures(
                                f,
                                (&all.take(k + 1)[i],),
                                #[trigger] longer[i],
                            ) by {
                                if i < k {
                                    assert(longer[i] == keys[i]);
                                    assert(all.take(k + 1)[i] == all.take(k)[i]);
                                }
                            }
                        }
                        keys = longer;
                    }
                    match current_key.cmp(&key) {
                        Ordering::Greater => {
                            current = item;
                            current_key = key;
                        },
                        _ => {},
                    }
                    proof {
                        k = k + 1;
                    }
                },
                None => {
                    assert(all.take(k) =~= all);
                    break ;
                },
            }
        }
        current
    }
}

} // verus!
