//! Iterators that yield at least one item.

use crate::vec::Vec;
use vstd::prelude::*;
use vstd::std_specs::iter::IteratorSpec;

verus! {

/// An iterator that is known to yield at least one item.
///
/// The view of the wrapper is the iterator inside. What the iterator will
/// yield is `self@.remaining()`, and the guarantee of this type is that this
/// sequence is not empty. The methods that consume the iterator hand out an
/// item where those of the standard library hand out an `Option`.
///
/// Wrappers come from the non-empty collections (`into_iter_ne`, `iter_ne`)
/// and from the adaptors of this type, which keep the guarantee.
#[derive(Debug, Clone, Copy, Hash)]
pub struct NonEmpty<I> {
    inner: I,
}

impl<I> View for NonEmpty<I> {
    type V = I;

    closed spec fn view(&self) -> I {
        self.inner
    }
}

/// Collects the items of `iter` into a vector of the standard library, in
/// order.
pub(crate) fn collect_all<I: Iterator>(iter: I) -> (r: std::vec::Vec<I::Item>)
    requires
        iter.obeys_prophetic_iter_laws(),
        iter.decrease() is Some,
    ensures
        r@ == iter.remaining(),
{
    let mut iter = iter;
    let mut items: std::vec::Vec<I::Item> = std::vec::Vec::new();
    let ghost all = iter.remaining();
    let ghost mut k: int = 0;
    loop
        invariant
            iter.obeys_prophetic_iter_laws(),
            iter.decrease() is Some,
            0 <= k <= all.len(),
            iter.remaining() == all.skip(k),
            items@ == all.take(k),
        ensures
            items@ == all,
        decreases iter.decrease()->0,
    {
        match iter.next() {
            Some(item) => {
                items.push(item);
                proof {
                    assert(all.skip(k).drop_first() =~= all.skip(k + 1));
                    assert(all.take(k).push(all[k]) =~= all.take(k + 1));
                    k = k + 1;
                }
            },
            None => {
                assert(all.take(k) =~= all);
                break ;
            },
        }
    }
    items
}

impl<I: Iterator> NonEmpty<I> {
    /// The iterator inside behaves as its sequence of remaining items says,
    /// and comes to an end.
    pub open spec fn lawful(&self) -> bool {
        &&& self@.obeys_prophetic_iter_laws()
        &&& self@.decrease() is Some
    }

    /// Wraps an iterator that the caller knows to yield an item.
    pub(crate) fn new_unchecked(inner: I) -> (r: Self)
        ensures
            r@ == inner,
    {
        NonEmpty { inner }
    }

    /// The iterator inside, open to changes. Only for the methods of this
    /// crate that keep the guarantee.
    pub(crate) fn inner_mut(&mut self) -> (r: &mut I)
        ensures
            *r == old(self)@,
            final(self)@ == *final(r),
    {
        &mut self.inner
    }

    /// Unwraps the iterator inside, for the methods that do not keep the
    /// guarantee.
    pub fn relax(self) -> (r: I)
        ensures
            r == self@,
    {
        self.inner
    }

    /// Returns the first item.
    pub fn first(self) -> (r: I::Item)
        requires
            self@.obeys_prophetic_iter_laws(),
            self@.remaining().len() >= 1,
        ensures
            r == self@.remaining()[0],
    {
        let mut inner = self.inner;
        match inner.next() {
            Some(item) => item,
            None => unreached(),
        }
    }

    /// Returns the last item.
    pub fn last(self) -> (r: I::Item)
        requires
            self.lawful(),
            self@.remaining().len() >= 1,
        ensures
            r == self@.remaining().last(),
    {
        let mut inner = self.inner;
        let ghost all = inner.remaining();
        let mut current = match inner.next() {
            Some(item) => item,
            None => unreached(),
        };
        let ghost mut k: int = 1;
        loop
            invariant
                inner.obeys_prophetic_iter_laws(),
                inner.decrease() is Some,
                1 <= k <= all.len(),
                inner.remaining() == all.skip(k),
                current == all[k - 1],
            ensures
                current == all.last(),
            decreases inner.decrease()->0,
        {
            match inner.next() {
                Some(item) => {
                    current = item;
                    proof {
                        assert(all.skip(k).drop_first() =~= all.skip(k + 1));
                        k = k + 1;
                    }
                },
                None => {
                    break ;
                },
            }
        }
        current
    }

    /// Collects the items into a non-empty vector, in order.
    pub fn collect_vec(self) -> (r: Vec<I::Item>)
        requires
            self.lawful(),
            self@.remaining().len() >= 1,
        ensures
            r@ == self@.remaining(),
            r.wf(),
    {
        let mut inner = self.inner;
        let ghost all = inner.remaining();
        let first = match inner.next() {
            Some(item) => item,
            None => unreached(),
        };
        assert(seq![first] + all.drop_first() =~= all);
        Vec::of_extending(first, inner)
    }

    /// Collects the values of the items into a non-empty vector, in order,
    /// or returns the error of the first item that is one.
    pub fn try_collect_vec<T, E>(self) -> (r: Result<Vec<T>, E>) where
        I: Iterator<Item = Result<T, E>>,

        requires
            self.lawful(),
            self@.remaining().len() >= 1,
        ensures
            match r {
                Ok(values) => {
                    &&& values.wf()
                    &&& values@.len() == self@.remaining().len()
                    &&& forall|k: int|
                        0 <= k < values@.len() ==> self@.remaining()[k] == Ok::<T, E>(
                            #[trigger] values@[k],
                        )
                },
                Err(error) => exists|k: int|
                    {
                        &&& 0 <= k < self@.remaining().len()
                        &&& #[trigger] self@.remaining()[k] == Err::<T, E>(error)
                        &&& forall|j: int| 0 <= j < k ==> (#[trigger] self@.remaining()[j]) is Ok
                    },
            },
    {
        let mut inner = self.inner;
        let ghost all = inner.remaining();
        let mut values: std::vec::Vec<T> = std::vec::Vec::new();
        let ghost mut k: int = 0;
        loop
            invariant
                inner.obeys_prophetic_iter_laws(),
                inner.decrease() is Some,
                0 <= k <= all.len(),
                inner.remaining() == all.skip(k),
                values@.len() == k,
                forall|j: int| 0 <= j < k ==> all[j] == Ok::<T, E>(#[trigger] values@[j]),
                all == self@.remaining(),
            ensures
                values@.len() == all.len(),
                forall|j: int| 0 <= j < all.len() ==> all[j] == Ok::<T, E>(#[trigger] values@[j]),
            decreases inner.decrease()->0,
        {
            match inner.next() {
                Some(Ok(value)) => {
                    values.push(value);
                    proof {
                        assert(all.skip(k).drop_first() =~= all.skip(k + 1));
                        k = k + 1;
                    }
                },
                Some(Err(error)) => {
                    assert(all.skip(k)[0] == all[k]);
                    assert(all[k] == Err::<T, E>(error));
                    assert forall|j: int| 0 <= j < k implies (#[trigger] all[j]) is Ok by {
                        assert(all[j] == Ok::<T, E>(values@[j]));
                    }
                    return Err(error);
                },
                None => {
                    break ;
                },
            }
        }
        Ok(Vec::new_unchecked(values))
    }

    /// Collects the two halves of the items into two non-empty vectors, in
    /// order.
    pub fn unzip_vec<A, B>(self) -> (r: (Vec<A>, Vec<B>)) where I: Iterator<Item = (A, B)>
        requires
            self.lawful(),
            self@.remaining().len() >= 1,
        ensures
            r.0.wf(),
            r.1.wf(),
            r.0@.len() == self@.remaining().len(),
            r.1@.len() == self@.remaining().len(),
            forall|k: int|
                0 <= k < self@.remaining().len() ==> self@.remaining()[k] == (
                    #[trigger] r.0@[k],
                    r.1@[k],
                ),
    {
        let mut inner = self.inner;
        let ghost all = inner.remaining();
        let mut lefts: std::vec::Vec<A> = std::vec::Vec::new();
        let mut rights: std::vec::Vec<B> = std::vec::Vec::new();
        let ghost mut k: int = 0;
        loop
            invariant
                inner.obeys_prophetic_iter_laws(),
                inner.decrease() is Some,
                0 <= k <= all.len(),
                inner.remaining() == all.skip(k),
                lefts@.len() == k,
                rights@.len() == k,
                forall|j: int| 0 <= j < k ==> all[j] == (#[trigger] lefts@[j], rights@[j]),
            ensures
                lefts@.len() == all.len(),
                rights@.len() == all.len(),
                forall|j: int| 0 <= j < all.len() ==> all[j] == (#[trigger] lefts@[j], rights@[j]),
            decreases inner.decrease()->0,
        {
            match inner.next() {
                Some((left, right)) => {
                    lefts.push(left);
                    rights.push(right);
                    proof {
                        assert(all.skip(k).drop_first() =~= all.skip(k + 1));
                        k = k + 1;
                    }
                },
                None => {
                    break ;
                },
            }
        }
        (Vec::new_unchecked(lefts), Vec::new_unchecked(rights))
    }
}

} // verus!
