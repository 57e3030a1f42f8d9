//! The adaptors of a non-empty iterator that keep it non-empty.
//!
//! What the new iterator yields is stated over what the old one would have
//! yielded. The adaptors that keep the type of the items hand the iterator
//! inside to the adaptor of the same name of the standard library. Those
//! that change it or call a function of the caller (`map`, `inspect`,
//! `copied`, `cloned`, `flatten`) do their work at once and walk the vector
//! that holds the items.

use crate::iter::collect_all;
use crate::iter::NonEmpty;
use crate::nonzero::NonZeroLen;
use crate::vec::Vec;
use vstd::prelude::*;
use vstd::std_specs::iter::IteratorSpec;

verus! {

/// `core::iter::Chain`, the result of `Iterator::chain`. Nothing inside it is
/// seen: it is only handed on, and what it yields is stated by the function
/// that makes it.
#[verifier::external_type_specification]
#[verifier::external_body]
#[verifier::reject_recursive_types(A)]
#[verifier::reject_recursive_types(B)]
pub struct ExChain<A, B>(core::iter::Chain<A, B>);

/// `core::iter::Enumerate`, the result of `Iterator::enumerate`. Nothing inside it is
/// seen: it is only handed on, and what it yields is stated by the function
/// that makes it.
#[verifier::external_type_specification]
#[verifier::external_body]
#[verifier::reject_recursive_types(I)]
pub struct ExEnumerate<I>(core::iter::Enumerate<I>);

/// `core::iter::Take`, the result of `Iterator::take`. Nothing inside it is
/// seen: it is only handed on, and what it yields is stated by the function
/// that makes it.
#[verifier::external_type_specification]
#[verifier::external_body]
#[verifier::reject_recursive_types(I)]
pub struct ExTake<I>(core::iter::Take<I>);

/// `core::iter::Fuse`, the result of `Iterator::fuse`. Nothing inside it is
/// seen: it is only handed on, and what it yields is stated by the function
/// that makes it.
#[verifier::external_type_specification]
#[verifier::external_body]
#[verifier::reject_recursive_types(I)]
pub struct ExFuse<I>(core::iter::Fuse<I>);

/// `core::iter::Cycle`, the result of `Iterator::cycle`. Nothing inside it is
/// seen: it is only handed on, and what it yields is stated by the function
/// that makes it.
#[verifier::external_type_specification]
#[verifier::external_body]
#[verifier::reject_recursive_types(I)]
pub struct ExCycle<I>(core::iter::Cycle<I>);

/// `core::iter::Peekable`, the result of `Iterator::peekable`. Nothing inside it is
/// seen: it is only handed on, and what it yields is stated by the function
/// that makes it.
#[verifier::external_type_specification]
#[verifier::external_body]
#[verifier::reject_recursive_types(I)]
pub struct ExPeekable<I: Iterator>(core::iter::Peekable<I>);

/// `Iterator::peekable`: the iterator that yields the items of `iter` and
/// lets the next one be looked at before it is taken.
#[verifier::external_body]
fn iter_peekable<I: Iterator>(iter: I) -> (r: core::iter::Peekable<I>)
    ensures
        iter.obeys_prophetic_iter_laws() ==> r.obeys_prophetic_iter_laws(),
        iter.decrease() is Some ==> r.decrease() is Some,
        iter.obeys_prophetic_iter_laws() ==> r.remaining() == iter.remaining(),
{
    iter.peekable()
}

/// `Peekable::peek`: a reference to the item that `next` would return, or
/// `None` at the end. The iterator does not advance.
#[verifier::external_body]
fn peekable_peek<I: Iterator>(iter: &mut core::iter::Peekable<I>) -> (r: Option<&I::Item>)
    ensures
        (*final(iter)).obeys_prophetic_iter_laws() == (*old(iter)).obeys_prophetic_iter_laws(),
        (*final(iter)).decrease() is Some == (*old(iter)).decrease() is Some,
        (*old(iter)).obeys_prophetic_iter_laws() ==> (*final(iter)).remaining() == (*old(
            iter,
        )).remaining(),
        (*old(iter)).obeys_prophetic_iter_laws() && (*old(iter)).remaining().len() == 0
            ==> r is None,
        (*old(iter)).obeys_prophetic_iter_laws() && (*old(iter)).remaining().len() >= 1
            ==> r is Some && *r->0 == (*old(iter)).remaining()[0],
{
    iter.peek()
}

/// `Peekable::peek_mut`: an exclusive reference to the item that `next`
/// would return, or `None` at the end. The iterator does not advance, and
/// what is written through the reference is what `next` returns.
#[verifier::external_body]
fn peekable_peek_mut<I: Iterator>(iter: &mut core::iter::Peekable<I>) -> (r: Option<
    &mut I::Item,
>)
    ensures
        (*final(iter)).obeys_prophetic_iter_laws() == (*old(iter)).obeys_prophetic_iter_laws(),
        (*final(iter)).decrease() is Some == (*old(iter)).decrease() is Some,
        (*old(iter)).obeys_prophetic_iter_laws() && (*old(iter)).remaining().len() == 0
            ==> r is None && (*final(iter)).remaining() == (*old(iter)).remaining(),
        (*old(iter)).obeys_prophetic_iter_laws() && (*old(iter)).remaining().len() >= 1
            ==> r is Some && *r->0 == (*old(iter)).remaining()[0] && (*final(iter)).remaining()
            == (*old(iter)).remaining().update(0, *final(r->0)),
{
    iter.peek_mut()
}

/// `Iterator::chain`: the iterator that yields the items of `first` and then
/// those of `second`.
#[verifier::external_body]
fn iter_chain<A: Iterator, B: Iterator<Item = A::Item>>(first: A, second: B) -> (r:
    core::iter::Chain<A, B>)
    ensures
        first.obeys_prophetic_iter_laws() && second.obeys_prophetic_iter_laws()
            ==> r.obeys_prophetic_iter_laws(),
        first.decrease() is Some && second.decrease() is Some ==> r.decrease() is Some,
        first.obeys_prophetic_iter_laws() && second.obeys_prophetic_iter_laws() ==> r.remaining()
            == first.remaining() + second.remaining(),
{
    first.chain(second)
}

/// `Iterator::enumerate`: the iterator that yields each item of `iter`
/// together with its index, counted from zero.
#[verifier::external_body]
fn iter_enumerate<I: Iterator>(iter: I) -> (r: core::iter::Enumerate<I>)
    requires
        iter.remaining().len() <= usize::MAX,
    ensures
        iter.obeys_prophetic_iter_laws() ==> r.obeys_prophetic_iter_laws(),
        iter.decrease() is Some ==> r.decrease() is Some,
        iter.obeys_prophetic_iter_laws() ==> r.remaining().len() == iter.remaining().len(),
        iter.obeys_prophetic_iter_laws() ==> forall|k: int|
            0 <= k < iter.remaining().len() ==> (#[trigger] r.remaining()[k]).0 == k
                && r.remaining()[k].1 == iter.remaining()[k],
{
    iter.enumerate()
}

/// `Iterator::take`: the iterator that yields the first `n` items of `iter`,
/// or all of them if there are fewer.
#[verifier::external_body]
fn iter_take<I: Iterator>(iter: I, n: usize) -> (r: core::iter::Take<I>)
    ensures
        iter.obeys_prophetic_iter_laws() ==> r.obeys_prophetic_iter_laws(),
        iter.decrease() is Some ==> r.decrease() is Some,
        iter.obeys_prophetic_iter_laws() && n <= iter.remaining().len() ==> r.remaining()
            == iter.remaining().take(n as int),
        iter.obeys_prophetic_iter_laws() && n >= iter.remaining().len() ==> r.remaining()
            == iter.remaining(),
{
    iter.take(n)
}

/// `Iterator::fuse`: the iterator that yields the items of `iter` and
/// nothing after the first end.
#[verifier::external_body]
fn iter_fuse<I: Iterator>(iter: I) -> (r: core::iter::Fuse<I>)
    ensures
        iter.obeys_prophetic_iter_laws() ==> r.obeys_prophetic_iter_laws(),
        iter.decrease() is Some ==> r.decrease() is Some,
        iter.obeys_prophetic_iter_laws() ==> r.remaining() == iter.remaining(),
{
    iter.fuse()
}

/// `Iterator::rev`: the iterator that yields the items of `iter` from the
/// back to the front.
#[verifier::external_body]
fn iter_rev<I: DoubleEndedIterator>(iter: I) -> (r: core::iter::Rev<I>)
    ensures
        iter.obeys_prophetic_iter_laws() ==> r.obeys_prophetic_iter_laws(),
        iter.decrease() is Some ==> r.decrease() is Some,
        iter.obeys_prophetic_iter_laws() ==> r.remaining() == iter.remaining().reverse(),
{
    iter.rev()
}

/// `Iterator::cycle`: the iterator that yields the items of `iter` over and
/// over, without end.
#[verifier::external_body]
fn iter_cycle<I: Iterator + Clone>(iter: I) -> core::iter::Cycle<I> {
    iter.cycle()
}

impl<I: Iterator> NonEmpty<I> {
    /// Yields what `f` returns for each item.
    ///
    /// `f` is called for every item at once, in order, and what it returns
    /// is kept in a vector, which the result walks.
    pub fn map<B, F>(self, f: F) -> (r: NonEmpty<std::vec::IntoIter<B>>) where
        F: FnMut(I::Item) -> B,

        requires
            self.lawful(),
            self@.remaining().len() >= 1,
            forall|k: int|
                0 <= k < self@.remaining().len() ==> call_requires(
                    f,
                    (#[trigger] self@.remaining()[k],),
                ),
        ensures
            r.lawful(),
            r@.remaining().len() >= 1,
            r@.remaining().len() == self@.remaining().len(),
            forall|k: int|
                0 <= k < self@.remaining().len() ==> call_ensures(
                    f,
                    (self@.remaining()[k],),
                    #[trigger] r@.remaining()[k],
                ),
    {
        let ghost given = f;
        let mut f = f;
        let mut inner = self.relax();
        let ghost all = inner.remaining();
        let mut items: std::vec::Vec<B> = std::vec::Vec::new();
        let ghost mut k: int = 0;
        loop
            invariant
                f == given,
                forall|j: int| 0 <= j < all.len() ==> call_requires(f, (#[trigger] all[j],)),
                inner.obeys_prophetic_iter_laws(),
                inner.decrease() is Some,
                0 <= k <= all.len(),
                inner.remaining() == all.skip(k),
                items@.len() == k,
                forall|j: int| 0 <= j < k ==> call_ensures(f, (all[j],), #[trigger] items@[j]),
            ensures
                items@.len() == all.len(),
                forall|j: int|
                    0 <= j < all.len() ==> call_ensures(given, (all[j],), #[trigger] items@[j]),
            decreases inner.decrease()->0,
        {
            match inner.next() {
                Some(item) => {
                    proof {
                        assert(all.skip(k)[0] == all[k]);
                    }
                    let mapped = f(item);
                    items.push(mapped);
                    proof {
                        assert(all.skip(k).drop_first() =~= all.skip(k + 1));
                        k = k + 1;
                    }
                },
                None => {
                    break ;
                },
            }
        }
        Vec::new_unchecked(items).into_iter_ne()
    }

    /// Yields the items of the first inner iterator, then those of the
    /// second, and so on. Every inner iterator yields at least one item, so
    /// the result does.
    ///
    /// The inner iterators are walked at once, in order, and their items are
    /// kept in a vector, which the result walks.
    pub fn flatten<II>(self) -> (r: NonEmpty<std::vec::IntoIter<II::Item>>) where
        I: Iterator<Item = NonEmpty<II>>,
        II: Iterator,

        requires
            self.lawful(),
            self@.remaining().len() >= 1,
            forall|k: int|
                0 <= k < self@.remaining().len() ==> (#[trigger] self@.remaining()[k]).lawful()
                    && self@.remaining()[k]@.remaining().len() >= 1,
        ensures
            r.lawful(),
            r@.remaining().len() >= 1,
            r@.remaining() == self@.remaining().map_values(
                |inner: NonEmpty<II>| inner@.remaining(),
            ).flatten(),
    {
        let mut outer = self.relax();
        let ghost all = outer.remaining();
        let ghost parts = all.map_values(|inner: NonEmpty<II>| inner@.remaining());
        let mut items: std::vec::Vec<II::Item> = std::vec::Vec::new();
        let ghost mut k: int = 0;
        assert(parts.take(0) =~= Seq::<Seq<II::Item>>::empty());
        loop
            invariant
                outer.obeys_prophetic_iter_laws(),
                outer.decrease() is Some,
                0 <= k <= all.len(),
                outer.remaining() == all.skip(k),
                parts.len() == all.len(),
                forall|j: int| 0 <= j < all.len() ==> (#[trigger] all[j]).lawful(),
                forall|j: int| 0 <= j < all.len() ==> (#[trigger] parts[j]) == all[j]@.remaining(),
                forall|j: int| 0 <= j < all.len() ==> (#[trigger] parts[j]).len() >= 1,
                items@ == parts.take(k).flatten(),
                k >= 1 ==> items@.len() >= 1,
            ensures
                items@ == parts.flatten(),
                items@.len() >= 1 || all.len() == 0,
            decreases outer.decrease()->0,
        {
            match outer.next() {
                Some(inner) => {
                    proof {
                        assert(all.skip(k)[0] == all[k]);
                        assert(inner@.remaining() == parts[k]);
                    }
                    let ghost before = items@;
                    let mut part = collect_all(inner.relax());
                    items.append(&mut part);
                    proof {
                        assert(all.skip(k).drop_first() =~= all.skip(k + 1));
                        assert(parts.take(k).push(parts[k]) =~= parts.take(k + 1));
                        parts.take(k).lemma_flatten_push(parts[k]);
                        assert(items@ =~= before + parts[k]);
                        assert(items@ == parts.take(k + 1).flatten());
                        k = k + 1;
                    }
                },
                None => {
                    assert(parts.take(k) =~= parts);
                    break ;
                },
            }
        }
        Vec::new_unchecked(items).into_iter_ne()
    }

    /// Yields the items of this iterator and then those of `other`.
    pub fn chain<U>(self, other: U) -> (r: NonEmpty<core::iter::Chain<I, U>>) where
        U: Iterator<Item = I::Item>,

        requires
            self@.obeys_prophetic_iter_laws(),
            self@.remaining().len() >= 1,
            other.obeys_prophetic_iter_laws(),
        ensures
            r@.obeys_prophetic_iter_laws(),
            r@.remaining().len() >= 1,
            self.lawful() && other.decrease() is Some ==> r.lawful(),
            r@.remaining() == self@.remaining() + other.remaining(),
    {
        NonEmpty::new_unchecked(iter_chain(self.relax(), other))
    }

    /// Yields each item together with its index, counted from zero.
    pub fn enumerate(self) -> (r: NonEmpty<core::iter::Enumerate<I>>)
        requires
            self@.obeys_prophetic_iter_laws(),
            1 <= self@.remaining().len() <= usize::MAX,
        ensures
            r@.obeys_prophetic_iter_laws(),
            r@.remaining().len() >= 1,
            self.lawful() ==> r.lawful(),
            r@.remaining().len() == self@.remaining().len(),
            forall|k: int|
                0 <= k < self@.remaining().len() ==> (#[trigger] r@.remaining()[k]).0 == k
                    && r@.remaining()[k].1 == self@.remaining()[k],
    {
        NonEmpty::new_unchecked(iter_enumerate(self.relax()))
    }

    /// Yields the first `n` items, or all of them if there are fewer.
    pub fn take(self, n: NonZeroLen) -> (r: NonEmpty<core::iter::Take<I>>)
        requires
            self@.obeys_prophetic_iter_laws(),
            self@.remaining().len() >= 1,
        ensures
            r@.obeys_prophetic_iter_laws(),
            r@.remaining().len() >= 1,
            self.lawful() ==> r.lawful(),
            n@ <= self@.remaining().len() ==> r@.remaining() == self@.remaining().take(n@ as int),
            n@ >= self@.remaining().len() ==> r@.remaining() == self@.remaining(),
    {
        NonEmpty::new_unchecked(iter_take(self.relax(), n.get()))
    }

    /// Yields the same items, and nothing more once the end was reached.
    pub fn fuse(self) -> (r: NonEmpty<core::iter::Fuse<I>>)
        requires
            self@.obeys_prophetic_iter_laws(),
            self@.remaining().len() >= 1,
        ensures
            r@.obeys_prophetic_iter_laws(),
            r@.remaining().len() >= 1,
            self.lawful() ==> r.lawful(),
            r@.remaining() == self@.remaining(),
    {
        NonEmpty::new_unchecked(iter_fuse(self.relax()))
    }

    /// Yields the same items, after showing each to `f`.
    ///
    /// `f` is shown every item at once, in order, and the items are kept in
    /// a vector, which the result walks.
    pub fn inspect<F>(self, f: F) -> (r: NonEmpty<std::vec::IntoIter<I::Item>>) where
        F: FnMut(&I::Item),

        requires
            self.lawful(),
            self@.remaining().len() >= 1,
            forall|k: int|
                0 <= k < self@.remaining().len() ==> call_requires(
                    f,
                    (&#[trigger] self@.remaining()[k],),
                ),
        ensures
            r.lawful(),
            r@.remaining().len() >= 1,
            r@.remaining() == self@.remaining(),
    {
        let ghost given = f;
        let mut f = f;
        let mut inner = self.relax();
        let ghost all = inner.remaining();
        let mut items: std::vec::Vec<I::Item> = std::vec::Vec::new();
        let ghost mut k: int = 0;
        loop
            invariant
                f == given,
                forall|j: int| 0 <= j < all.len() ==> call_requires(f, (&#[trigger] all[j],)),
                inner.obeys_prophetic_iter_laws(),
                inner.decrease() is Some,
                0 <= k <= all.len(),
                inner.remaining() == all.skip(k),
                items@ == all.take(k),
            ensures
                items@ == all,
            decreases inner.decrease()->0,
        {
            match inner.next() {
                Some(item) => {
                    proof {
                        assert(all.skip(k)[0] == all[k]);
                    }
                    f(&item);
                    items.push(item);
                    proof {
                        assert(all.skip(k).drop_first() =~= all.skip(k + 1));
                        assert(all.take(k).push(all[k]) =~= all.take(k + 1));
                        k = k + 1;
                    }
                },
                None => {
                    assert(all.take(k) =~= all);
                    break ;
                },
            }
        }
        Vec::new_unchecked(items).into_iter_ne()
    }

    /// Yields the items over and over, without end.
    ///
    /// An endless iterator has no sequence of remaining items, so nothing is
    /// stated of the result, and the methods that need such a sequence are
    /// not for it.
    pub fn cycle(self) -> NonEmpty<core::iter::Cycle<I>> where I: Clone {
        NonEmpty::new_unchecked(iter_cycle(self.relax()))
    }
}

impl<I: Iterator> NonEmpty<I> {
    /// Yields the same items and lets the next one be looked at before it
    /// is taken, by [`NonEmpty::peek`] and [`NonEmpty::peek_mut`].
    pub fn peekable(self) -> (r: NonEmpty<core::iter::Peekable<I>>)
        requires
            self@.obeys_prophetic_iter_laws(),
            self@.remaining().len() >= 1,
        ensures
            r@.obeys_prophetic_iter_laws(),
            r@.remaining().len() >= 1,
            self.lawful() ==> r.lawful(),
            r@.remaining() == self@.remaining(),
    {
        NonEmpty::new_unchecked(iter_peekable(self.relax()))
    }

    /// Yields the items in the opposite order.
    pub fn rev(self) -> (r: NonEmpty<core::iter::Rev<I>>) where I: DoubleEndedIterator
        requires
            self@.obeys_prophetic_iter_laws(),
            self@.remaining().len() >= 1,
        ensures
            r@.obeys_prophetic_iter_laws(),
            r@.remaining().len() >= 1,
            self.lawful() ==> r.lawful(),
            r@.remaining() == self@.remaining().reverse(),
    {
        NonEmpty::new_unchecked(iter_rev(self.relax()))
    }

    /// Yields a copy of what each reference points to.
    ///
    /// The copies are made at once and kept in a vector, which the result
    /// walks.
    pub fn copied<'a, T>(self) -> (r: NonEmpty<std::vec::IntoIter<T>>) where
        T: 'a + Copy,
        I: Iterator<Item = &'a T>,

        requires
            self.lawful(),
            self@.remaining().len() >= 1,
        ensures
            r.lawful(),
            r@.remaining().len() >= 1,
            r@.remaining().len() == self@.remaining().len(),
            forall|k: int|
                0 <= k < self@.remaining().len() ==> (#[trigger] r@.remaining()[k])
                    == *self@.remaining()[k],
    {
        let mut inner = self.relax();
        let ghost all = inner.remaining();
        let mut items: std::vec::Vec<T> = std::vec::Vec::new();
        let ghost mut k: int = 0;
        loop
            invariant
                inner.obeys_prophetic_iter_laws(),
                inner.decrease() is Some,
                0 <= k <= all.len(),
                inner.remaining() == all.skip(k),
                items@.len() == k,
                forall|j: int| 0 <= j < k ==> (#[trigger] items@[j]) == *all[j],
            ensures
                items@.len() == all.len(),
                forall|j: int| 0 <= j < all.len() ==> (#[trigger] items@[j]) == *all[j],
            decreases inner.decrease()->0,
        {
            match inner.next() {
                Some(item) => {
                    items.push(*item);
                    proof {
                        assert(all.skip(k).drop_first() =~= all.skip(k + 1));
                        k = k + 1;
                    }
                },
                None => {
                    break ;
                },
            }
        }
        Vec::new_unchecked(items).into_iter_ne()
    }

    /// Yields a clone of what each reference points to.
    ///
    /// The clones are made at once and kept in a vector, which the result
    /// walks.
    pub fn cloned<'a, T>(self) -> (r: NonEmpty<std::vec::IntoIter<T>>) where
        T: 'a + Clone,
        I: Iterator<Item = &'a T>,

        requires
            self.lawful(),
            self@.remaining().len() >= 1,
        ensures
            r.lawful(),
            r@.remaining().len() >= 1,
            r@.remaining().len() == self@.remaining().len(),
            forall|k: int|
                0 <= k < self@.remaining().len() ==> cloned(
                    *self@.remaining()[k],
                    #[trigger] r@.remaining()[k],
                ),
    {
        let mut inner = self.relax();
        let ghost all = inner.remaining();
        let mut items: std::vec::Vec<T> = std::vec::Vec::new();
        let ghost mut k: int = 0;
        loop
            invariant
                inner.obeys_prophetic_iter_laws(),
                inner.decrease() is Some,
                0 <= k <= all.len(),
                inner.remaining() == all.skip(k),
                items@.len() == k,
                forall|j: int| 0 <= j < k ==> cloned(*all[j], #[trigger] items@[j]),
            ensures
                items@.len() == all.len(),
                forall|j: int| 0 <= j < all.len() ==> cloned(*all[j], #[trigger] items@[j]),
            decreases inner.decrease()->0,
        {
            match inner.next() {
                Some(item) => {
                    items.push(item.clone());
                    proof {
                        assert(all.skip(k).drop_first() =~= all.skip(k + 1));
                        k = k + 1;
                    }
                },
                None => {
                    break ;
                },
            }
        }
        Vec::new_unchecked(items).into_iter_ne()
    }
}

impl<I: Iterator> NonEmpty<core::iter::Peekable<I>> {
    /// Returns the item that comes next, without taking it.
    pub fn peek(&mut self) -> (r: &I::Item)
        requires
            old(self)@.obeys_prophetic_iter_laws(),
            old(self)@.remaining().len() >= 1,
        ensures
            *r == old(self)@.remaining()[0],
            final(self)@.remaining() == old(self)@.remaining(),
            final(self)@.obeys_prophetic_iter_laws(),
            final(self).lawful() == old(self).lawful(),
    {
        match peekable_peek(self.inner_mut()) {
            Some(item) => item,
            None => unreached(),
        }
    }

    /// Returns the item that comes next, to be read or replaced, without
    /// taking it.
    pub fn peek_mut(&mut self) -> (r: &mut I::Item)
        requires
            old(self)@.obeys_prophetic_iter_laws(),
            old(self)@.remaining().len() >= 1,
        ensures
            *r == old(self)@.remaining()[0],
            final(self)@.remaining() == old(self)@.remaining().update(0, *final(r)),
            final(self)@.obeys_prophetic_iter_laws(),
            final(self).lawful() == old(self).lawful(),
    {
        match peekable_peek_mut(self.inner_mut()) {
            Some(item) => item,
            None => unreached(),
        }
    }
}

} // verus!
