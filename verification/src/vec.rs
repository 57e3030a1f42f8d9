//! A non-empty, growable, heap-allocated vector.

use crate::iter::NonEmpty;
use crate::nonzero::NonZeroLen;
use crate::slice::vec_into_boxed_slice;
use crate::slice::BoxedSlice;
use crate::slice::Slice;
use crate::slice::SliceMut;
use std::collections::TryReserveError;
use vstd::prelude::*;
use vstd::std_specs::cmp::PartialEqSpec;
use vstd::std_specs::iter::IteratorSpec;

verus! {

/// A growable vector that holds at least one element.
///
/// Operations that keep or raise the length are those of the standard
/// vector. Operations that lower it take a target that cannot be zero
/// ([`Vec::truncate`]) or are only for vectors of two or more elements
/// ([`Vec::remove`], [`Vec::swap_remove`]).
#[derive(Debug, Hash, Ord)]
pub struct Vec<T> {
    inner: std::vec::Vec<T>,
}

impl<T> View for Vec<T> {
    type V = Seq<T>;

    closed spec fn view(&self) -> Seq<T> {
        self.inner@
    }
}

impl<T: Clone> Clone for Vec<T> {
    fn clone(&self) -> (r: Self)
        ensures
            r@.len() == self@.len(),
            forall|i: int| 0 <= i < self@.len() ==> cloned(self@[i], #[trigger] r@[i]),
    {
        Vec { inner: self.inner.clone() }
    }
}

impl<T> IntoIterator for Vec<T> {
    type Item = T;

    type IntoIter = std::vec::IntoIter<T>;

    /// Turns the vector into an iterator over its elements.
    fn into_iter(self) -> (r: std::vec::IntoIter<T>)
        ensures
            r.obeys_prophetic_iter_laws(),
            r.decrease() is Some,
            r.remaining() == self@,
    {
        self.inner.into_iter()
    }
}

impl<'a, T> IntoIterator for &'a Vec<T> {
    type Item = &'a T;

    type IntoIter = core::slice::Iter<'a, T>;

    /// Returns an iterator over references to the elements.
    fn into_iter(self) -> (r: core::slice::Iter<'a, T>)
        ensures
            r.obeys_prophetic_iter_laws(),
            r.decrease() is Some,
            r.remaining() == self@.as_ref(),
    {
        self.inner.as_slice().iter()
    }
}

/// `Vec::capacity`: the number of elements that the vector can hold without
/// allocating again, which is never less than its length.
#[verifier::external_body]
fn vec_capacity<T>(vec: &std::vec::Vec<T>) -> (capacity: usize)
    ensures
        capacity >= vec@.len(),
{
    vec.capacity()
}

/// The room for `count` elements of type `T` is no more than a vector can
/// have: the count fits in `usize`, and the bytes fit in `isize`.
pub open spec fn fits_capacity<T>(count: int) -> bool {
    &&& count <= usize::MAX
    &&& count * vstd::layout::size_of::<T>() <= isize::MAX
}

/// `Vec::reserve_exact`: makes room for more elements and keeps the elements.
/// It panics where the room asked for is more than a vector can have, which
/// the precondition leaves out.
#[verifier::external_body]
fn vec_reserve_exact<T>(vec: &mut std::vec::Vec<T>, additional: usize)
    requires
        fits_capacity::<T>(old(vec)@.len() + additional),
    ensures
        final(vec)@ == old(vec)@,
{
    vec.reserve_exact(additional)
}

/// `Vec::try_reserve_exact`: tries to make room for more elements and keeps
/// the elements, whether or not it succeeds. Room for no element more is
/// there already, so asking for none succeeds. Room that is more than a
/// vector can have is an error. In between, the allocator decides.
#[verifier::external_body]
fn vec_try_reserve_exact<T>(vec: &mut std::vec::Vec<T>, additional: usize) -> (r: Result<
    (),
    TryReserveError,
>)
    ensures
        final(vec)@ == old(vec)@,
        additional == 0 ==> r is Ok,
        !fits_capacity::<T>(old(vec)@.len() + additional) ==> r is Err,
{
    vec.try_reserve_exact(additional)
}

/// `Vec::shrink_to_fit`: gives back unused room and keeps the elements.
#[verifier::external_body]
fn vec_shrink_to_fit<T>(vec: &mut std::vec::Vec<T>)
    ensures
        final(vec)@ == old(vec)@,
{
    vec.shrink_to_fit()
}

/// `Vec::shrink_to`: gives back unused room down to a lower bound and keeps
/// the elements.
#[verifier::external_body]
fn vec_shrink_to<T>(vec: &mut std::vec::Vec<T>, min_capacity: usize)
    ensures
        final(vec)@ == old(vec)@,
{
    vec.shrink_to(min_capacity)
}

/// `same` puts elements together as an equality does: every element with
/// itself, in both directions, and across a common neighbour.
pub open spec fn is_equivalence<T>(same: spec_fn(T, T) -> bool) -> bool {
    &&& forall|a: T| #[trigger] same(a, a)
    &&& forall|a: T, b: T| #[trigger] same(a, b) ==> same(b, a)
    &&& forall|a: T, b: T, c: T| #[trigger] same(a, b) && #[trigger] same(b, c) ==> same(a, c)
}

/// The elements of `s` without those that `same` puts together with the
/// element kept before them: of every run of neighbours that belong
/// together, the first stays.
pub open spec fn dedup_seq<T>(s: Seq<T>, same: spec_fn(T, T) -> bool) -> Seq<T>
    decreases s.len(),
{
    if s.len() <= 1 {
        s
    } else {
        let kept = dedup_seq(s.drop_last(), same);
        if same(s.last(), kept.last()) {
            kept
        } else {
            kept.push(s.last())
        }
    }
}

/// Two elements belong together if `key_of` gives them equal keys.
pub open spec fn same_key<T, K: PartialEq>(key_of: spec_fn(T) -> K) -> spec_fn(T, T) -> bool {
    |a: T, b: T| key_of(a).eq_spec(&key_of(b))
}

/// `Vec::dedup_by`: of every run of neighbours that `same_bucket` puts
/// together, removes all but the first. Nothing is added, and the first
/// element of the vector is never removed. A vector of one element or none
/// is left as it is. Where `same_bucket` leaves the elements as they are and
/// decides as an equality `same` does, what is left is `dedup_seq` of the
/// elements by `same`.
#[verifier::external_body]
fn vec_dedup_by<T, F: FnMut(&mut T, &mut T) -> bool>(vec: &mut std::vec::Vec<T>, same_bucket: F)
    requires
        forall|a: &mut T, b: &mut T| call_requires(same_bucket, (a, b)),
    ensures
        final(vec)@.len() <= old(vec)@.len(),
        old(vec)@.len() >= 1 ==> final(vec)@.len() >= 1,
        old(vec)@.len() <= 1 ==> final(vec)@ == old(vec)@,
        forall|same: spec_fn(T, T) -> bool|
            {
                &&& is_equivalence(same)
                &&& forall|a: &mut T, b: &mut T, found: bool|
                    #[trigger] call_ensures(same_bucket, (a, b), found) ==> {
                        &&& found == same(*a, *b)
                        &&& *final(a) == *a
                        &&& *final(b) == *b
                    }
            } ==> final(vec)@ == #[trigger] dedup_seq(old(vec)@, same),
{
    vec.dedup_by(same_bucket)
}

/// `Vec::dedup_by_key`: of every run of neighbours for which `key` returns
/// equal keys, removes all but the first. Nothing is added, and the first
/// element of the vector is never removed. A vector of one element or none
/// is left as it is. Where `key` leaves the elements as they are and returns
/// for each the key that `key_of` gives it, and the equality of the keys is
/// as specified and an equality, what is left is `dedup_seq` of the elements
/// by the equality of their keys.
#[verifier::external_body]
fn vec_dedup_by_key<T, K: PartialEq, F: FnMut(&mut T) -> K>(vec: &mut std::vec::Vec<T>, key: F)
    requires
        forall|a: &mut T| call_requires(key, (a,)),
    ensures
        final(vec)@.len() <= old(vec)@.len(),
        old(vec)@.len() >= 1 ==> final(vec)@.len() >= 1,
        old(vec)@.len() <= 1 ==> final(vec)@ == old(vec)@,
        forall|key_of: spec_fn(T) -> K|
            {
                &&& K::obeys_eq_spec()
                &&& is_equivalence(same_key(key_of))
                &&& forall|a: &mut T, found: K|
                    #[trigger] call_ensures(key, (a,), found) ==> {
                        &&& found == key_of(*a)
                        &&& *final(a) == *a
                    }
            } ==> final(vec)@ == dedup_seq(old(vec)@, #[trigger] same_key(key_of)),
{
    vec.dedup_by_key(key)
}

/// `Vec::leak`: hands out the elements of the vector as an exclusive slice
/// that is never freed.
#[verifier::external_body]
fn vec_leak<'a, T>(vec: std::vec::Vec<T>) -> (r: &'a mut [T])
    ensures
        r@ == vec@,
{
    vec.leak()
}

impl<T> Vec<T> {
    /// The guarantee of this type: there is at least one element.
    pub open spec fn wf(&self) -> bool {
        self@.len() >= 1
    }

    /// The value that wraps `inner`.
    pub closed spec fn spec_new(inner: std::vec::Vec<T>) -> Self {
        Vec { inner }
    }

    /// The underlying vector.
    pub closed spec fn spec_inner(self) -> std::vec::Vec<T> {
        self.inner
    }

    /// Wrapping the underlying vector of a value gives the value again.
    pub proof fn lemma_spec_new_inner(value: Self)
        ensures
            Self::spec_new(value.spec_inner()) == value,
            value.spec_inner()@ == value@,
    {
    }

    /// Wraps `inner` as it is. The result is non-empty if `inner` is.
    pub(crate) fn wrap(inner: std::vec::Vec<T>) -> (r: Self)
        ensures
            r == Self::spec_new(inner),
            r@ == inner@,
    {
        Vec { inner }
    }

    /// Wraps `src`, or hands it back unchanged if it holds no element.
    pub fn new(src: std::vec::Vec<T>) -> (r: Result<Self, std::vec::Vec<T>>)
        ensures
            src@.len() == 0 ==> r is Err && r->Err_0 == src,
            src@.len() >= 1 ==> r is Ok && r->Ok_0 == Self::spec_new(src) && r->Ok_0@ == src@
                && r->Ok_0.wf(),
    {
        if src.is_empty() {
            Err(src)
        } else {
            Ok(Vec { inner: src })
        }
    }

    /// Wraps a `src` that the caller knows to hold an element.
    pub fn new_unchecked(src: std::vec::Vec<T>) -> (r: Self)
        requires
            src@.len() >= 1,
        ensures
            r@ == src@,
            r.wf(),
    {
        if src.is_empty() {
            // Only a caller that was not verified can come here.
            unreached()
        } else {
            Vec { inner: src }
        }
    }

    /// Creates the vector that holds `item` alone.
    pub fn of(item: T) -> (r: Self)
        ensures
            r@ == seq![item],
            r.wf(),
    {
        let mut inner = std::vec::Vec::new();
        inner.push(item);
        assert(inner@ =~= seq![item]);
        Vec { inner }
    }

    /// Creates the vector that holds `item` alone, with room for `capacity`
    /// elements.
    pub fn of_with_capacity(item: T, capacity: usize) -> (r: Self)
        requires
            fits_capacity::<T>(capacity as int),
        ensures
            r@ == seq![item],
            r.wf(),
    {
        let mut inner = std::vec::Vec::with_capacity(capacity);
        inner.push(item);
        assert(inner@ =~= seq![item]);
        Vec { inner }
    }

    /// Creates the vector that holds `first` and then the items of `rest`,
    /// in order.
    pub fn of_extending<I>(first: T, rest: I) -> (r: Self) where I: Iterator<Item = T>
        requires
            rest.obeys_prophetic_iter_laws(),
            rest.decrease() is Some,
        ensures
            r@ == seq![first] + rest.remaining(),
            r.wf(),
    {
        let mut this = Self::of(first);
        this.extend(rest);
        this
    }

    /// Creates the vector that holds `len` clones of `value`.
    pub fn filled(value: T, len: NonZeroLen) -> (r: Self) where T: Clone
        requires
            fits_capacity::<T>(len@ as int),
        ensures
            r@.len() == len@,
            forall|i: int| 0 <= i < len@ ==> cloned(value, #[trigger] r@[i]),
            r.wf(),
    {
        let mut inner = std::vec::Vec::new();
        inner.resize(len.get(), value);
        Vec { inner }
    }

    /// Creates the vector that holds what `len` calls of `f` return, in the
    /// order of the calls.
    pub fn filled_with<F>(f: F, len: NonZeroLen) -> (r: Self) where F: FnMut() -> T
        requires
            call_requires(f, ()),
        ensures
            r@.len() == len@,
            forall|i: int| 0 <= i < len@ ==> call_ensures(f, (), #[trigger] r@[i]),
            r.wf(),
    {
        let ghost given = f;
        let mut f = f;
        let n = len.get();
        let mut inner: std::vec::Vec<T> = std::vec::Vec::new();
        while inner.len() < n
            invariant
                f == given,
                call_requires(f, ()),
                inner@.len() <= n,
                forall|i: int| 0 <= i < inner@.len() ==> call_ensures(f, (), #[trigger] inner@[i]),
            decreases n - inner@.len(),
        {
            let item = f();
            inner.push(item);
        }
        Vec { inner }
    }

    /// Returns the underlying vector.
    pub fn as_vec(&self) -> (r: &std::vec::Vec<T>)
        ensures
            *r == self.spec_inner(),
            r@ == self@,
    {
        &self.inner
    }

    /// Returns the underlying vector, open to every change.
    ///
    /// Nothing keeps the caller from removing elements through the result.
    /// The vector is non-empty afterwards only if at least one element is
    /// left in it.
    pub fn as_mut_vec(&mut self) -> (r: &mut std::vec::Vec<T>)
        ensures
            r@ == old(self)@,
            final(self)@ == final(r)@,
    {
        &mut self.inner
    }

    /// Unwraps the underlying vector.
    pub fn into_vec(self) -> (r: std::vec::Vec<T>)
        ensures
            r == self.spec_inner(),
            r@ == self@,
    {
        let Vec { inner } = self;
        inner
    }

    /// Returns the elements as a shared slice.
    pub fn as_slice(&self) -> (r: &[T])
        ensures
            r@ == self@,
    {
        self.inner.as_slice()
    }

    /// Views the elements as a shared non-empty view.
    pub fn as_slice_ne(&self) -> (r: Slice<'_, T>)
        requires
            self.wf(),
        ensures
            r@ == self@,
            r.wf(),
    {
        Slice::new_unchecked(self.inner.as_slice())
    }

    /// Views the elements as a non-empty view that is open to changes.
    pub fn as_mut_slice_ne(&mut self) -> (r: SliceMut<'_, T>)
        requires
            old(self).wf(),
        ensures
            r@ == old(self)@,
            r.wf(),
            final(self)@ == final(r.target())@,
    {
        Slice::new_mut_unchecked(self.inner.as_mut_slice())
    }

    /// Returns the number of elements.
    pub fn len(&self) -> (n: usize)
        ensures
            n == self@.len(),
    {
        self.inner.len()
    }

    /// Returns the number of elements that the vector can hold without
    /// allocating again. It is not zero, as it is never less than the
    /// length.
    pub fn capacity(&self) -> (n: NonZeroLen)
        requires
            self.wf(),
        ensures
            n@ >= self@.len(),
    {
        NonZeroLen::new_unchecked(vec_capacity(&self.inner))
    }

    /// Makes room for at least `additional` more elements.
    pub fn reserve(&mut self, additional: usize)
        requires
            fits_capacity::<T>(old(self)@.len() + additional),
        ensures
            final(self)@ == old(self)@,
    {
        self.inner.reserve(additional)
    }

    /// Makes room for `additional` more elements and no more than needed.
    pub fn reserve_exact(&mut self, additional: usize)
        requires
            fits_capacity::<T>(old(self)@.len() + additional),
        ensures
            final(self)@ == old(self)@,
    {
        vec_reserve_exact(&mut self.inner, additional)
    }

    /// Tries to make room for at least `additional` more elements.
    pub fn try_reserve(&mut self, additional: usize) -> (r: Result<(), TryReserveError>)
        ensures
            final(self)@ == old(self)@,
    {
        self.inner.try_reserve(additional)
    }

    /// Tries to make room for `additional` more elements and no more than
    /// needed.
    ///
    /// Asking for no room succeeds, and asking for more than a vector can
    /// have fails. In between, the allocator decides.
    pub fn try_reserve_exact(&mut self, additional: usize) -> (r: Result<(), TryReserveError>)
        ensures
            final(self)@ == old(self)@,
            additional == 0 ==> r is Ok,
            !fits_capacity::<T>(old(self)@.len() + additional) ==> r is Err,
    {
        vec_try_reserve_exact(&mut self.inner, additional)
    }

    /// Gives back as much unused room as possible.
    pub fn shrink_to_fit(&mut self)
        ensures
            final(self)@ == old(self)@,
    {
        vec_shrink_to_fit(&mut self.inner)
    }

    /// Gives back unused room, keeping room for at least `min_capacity`
    /// elements.
    pub fn shrink_to(&mut self, min_capacity: usize)
        ensures
            final(self)@ == old(self)@,
    {
        vec_shrink_to(&mut self.inner, min_capacity)
    }

    /// Moves the elements into an allocation of their exact size.
    pub fn into_boxed_slice(self) -> (r: BoxedSlice<T>)
        requires
            self.wf(),
        ensures
            r@ == self@,
            r.wf(),
    {
        BoxedSlice::new_unchecked(vec_into_boxed_slice(self.inner))
    }

    /// Keeps the first `len` elements and drops the rest. Does nothing if
    /// the vector holds `len` elements or fewer.
    pub fn truncate(&mut self, len: NonZeroLen)
        requires
            old(self).wf(),
        ensures
            len@ <= old(self)@.len() ==> final(self)@ == old(self)@.subrange(0, len@ as int),
            len@ <= old(self)@.len() ==> final(self)@.len() == len@,
            len@ >= old(self)@.len() ==> final(self)@ == old(self)@,
            final(self).wf(),
    {
        let n = len.get();
        self.inner.truncate(n);
        assert(n == old(self)@.len() ==> old(self)@.subrange(0, n as int) =~= old(self)@);
    }

    /// Inserts `element` at `index` and moves the elements from there on
    /// one place up.
    pub fn insert(&mut self, index: usize, element: T)
        requires
            index <= old(self)@.len(),
        ensures
            final(self)@ == old(self)@.insert(index as int, element),
            final(self).wf(),
    {
        self.inner.insert(index, element)
    }

    /// Of every run of neighbours for which `key` returns equal keys, keeps
    /// the first and removes the others.
    ///
    /// Where `key` leaves the elements as they are and returns for each the
    /// key that a function `key_of` gives it, and the equality of the keys is
    /// as specified and an equality, what is left is [`dedup_seq`] of the
    /// elements by the equality of their keys.
    pub fn dedup_by_key<F, K>(&mut self, key: F) where F: FnMut(&mut T) -> K, K: PartialEq
        requires
            old(self).wf(),
            forall|a: &mut T| call_requires(key, (a,)),
        ensures
            1 <= final(self)@.len() <= old(self)@.len(),
            old(self)@.len() == 1 ==> final(self)@ == old(self)@,
            forall|key_of: spec_fn(T) -> K|
                {
                    &&& K::obeys_eq_spec()
                    &&& is_equivalence(same_key(key_of))
                    &&& forall|a: &mut T, found: K|
                        #[trigger] call_ensures(key, (a,), found) ==> {
                            &&& found == key_of(*a)
                            &&& *final(a) == *a
                        }
                } ==> final(self)@ == dedup_seq(old(self)@, #[trigger] same_key(key_of)),
            final(self).wf(),
    {
        vec_dedup_by_key(&mut self.inner, key)
    }

    /// Of every run of neighbours that `same_bucket` puts together, keeps
    /// the first and removes the others.
    ///
    /// `same_bucket` is asked of an element and the element kept before it.
    /// Where it leaves both as they are and decides as an equality `same`
    /// does, what is left is [`dedup_seq`] of the elements by `same`.
    pub fn dedup_by<F>(&mut self, same_bucket: F) where F: FnMut(&mut T, &mut T) -> bool
        requires
            old(self).wf(),
            forall|a: &mut T, b: &mut T| call_requires(same_bucket, (a, b)),
        ensures
            1 <= final(self)@.len() <= old(self)@.len(),
            old(self)@.len() == 1 ==> final(self)@ == old(self)@,
            forall|same: spec_fn(T, T) -> bool|
                {
                    &&& is_equivalence(same)
                    &&& forall|a: &mut T, b: &mut T, found: bool|
                        #[trigger] call_ensures(same_bucket, (a, b), found) ==> {
                            &&& found == same(*a, *b)
                            &&& *final(a) == *a
                            &&& *final(b) == *b
                        }
                } ==> final(self)@ == #[trigger] dedup_seq(old(self)@, same),
            final(self).wf(),
    {
        vec_dedup_by(&mut self.inner, same_bucket)
    }

    /// Appends `value`.
    pub fn push(&mut self, value: T)
        ensures
            final(self)@ == old(self)@.push(value),
            final(self).wf(),
    {
        self.inner.push(value)
    }

    /// Moves all elements of `other` to the end of this vector and leaves
    /// `other` empty.
    pub fn append(&mut self, other: &mut std::vec::Vec<T>)
        requires
            old(self).wf(),
        ensures
            final(self)@ == old(self)@ + old(other)@,
            final(other)@ == Seq::<T>::empty(),
            final(self).wf(),
    {
        self.inner.append(other)
    }

    /// Appends the items of `iter`, in order.
    pub fn extend<I>(&mut self, iter: I) where I: Iterator<Item = T>
        requires
            old(self).wf(),
            iter.obeys_prophetic_iter_laws(),
            iter.decrease() is Some,
        ensures
            final(self)@ == old(self)@ + iter.remaining(),
            final(self).wf(),
    {
        let mut iter = iter;
        let ghost all = iter.remaining();
        let ghost mut k: int = 0;
        loop
            invariant
                iter.obeys_prophetic_iter_laws(),
                iter.decrease() is Some,
                0 <= k <= all.len(),
                iter.remaining() == all.skip(k),
                self.inner@ == old(self)@ + all.take(k),
            ensures
                self.inner@ == old(self)@ + all,
            decreases iter.decrease()->0,
        {
            match iter.next() {
                Some(item) => {
                    self.inner.push(item);
                    proof {
                        assert(all.skip(k).drop_first() =~= all.skip(k + 1));
                        assert(all.take(k).push(all[k]) =~= all.take(k + 1));
                        assert((old(self)@ + all.take(k)).push(all[k]) =~= old(self)@ + all.take(
                            k + 1,
                        ));
                        k = k + 1;
                    }
                },
                None => {
                    assert(all.take(k) =~= all);
                    break ;
                },
            }
        }
    }

    /// Brings the vector to `new_len` elements: drops the elements from
    /// `new_len` on, or appends what calls of `f` return until the length is
    /// reached.
    pub fn resize_with<F>(&mut self, new_len: NonZeroLen, f: F) where F: FnMut() -> T
        requires
            old(self).wf(),
            call_requires(f, ()),
        ensures
            final(self)@.len() == new_len@,
            new_len@ <= old(self)@.len() ==> final(self)@ == old(self)@.subrange(
                0,
                new_len@ as int,
            ),
            new_len@ >= old(self)@.len() ==> final(self)@.subrange(0, old(self)@.len() as int)
                == old(self)@,
            forall|i: int|
                old(self)@.len() <= i < new_len@ ==> call_ensures(
                    f,
                    (),
                    #[trigger] final(self)@[i],
                ),
            final(self).wf(),
    {
        let ghost given = f;
        let mut f = f;
        let n = new_len.get();
        if n <= self.inner.len() {
            self.inner.truncate(n);
            assert(n == old(self)@.len() ==> old(self)@.subrange(0, n as int) =~= old(self)@);
        } else {
            while self.inner.len() < n
                invariant
                    f == given,
                    call_requires(f, ()),
                    old(self)@.len() <= self.inner@.len() <= n,
                    self.inner@.subrange(0, old(self)@.len() as int) == old(self)@,
                    forall|i: int|
                        old(self)@.len() <= i < self.inner@.len() ==> call_ensures(
                            f,
                            (),
                            #[trigger] self.inner@[i],
                        ),
                decreases n - self.inner@.len(),
            {
                let ghost before = self.inner@;
                let item = f();
                self.inner.push(item);
                assert(self.inner@.subrange(0, old(self)@.len() as int) =~= before.subrange(
                    0,
                    old(self)@.len() as int,
                ));
            }
        }
    }

    /// Removes the element at `index` and returns it. The elements after it
    /// move one place down.
    ///
    /// The vector must hold another element, which is left in it.
    pub fn remove(&mut self, index: usize) -> (element: T)
        requires
            old(self)@.len() >= 2,
            index < old(self)@.len(),
        ensures
            element == old(self)@[index as int],
            final(self)@ == old(self)@.remove(index as int),
            final(self)@.len() == old(self)@.len() - 1,
            final(self).wf(),
    {
        if self.inner.len() < 2 {
            // Only a caller that was not verified can come here.
            unreached()
        } else {
            self.inner.remove(index)
        }
    }

    /// Removes the element at `index` and returns it. The last element
    /// takes its place.
    ///
    /// The vector must hold another element, which is left in it.
    pub fn swap_remove(&mut self, index: usize) -> (element: T)
        requires
            old(self)@.len() >= 2,
            index < old(self)@.len(),
        ensures
            element == old(self)@[index as int],
            final(self)@ == old(self)@.update(index as int, old(self)@.last()).drop_last(),
            final(self)@.len() == old(self)@.len() - 1,
            final(self).wf(),
    {
        if self.inner.len() < 2 {
            // Only a caller that was not verified can come here.
            unreached()
        } else {
            self.inner.swap_remove(index)
        }
    }

    /// Turns the vector into an iterator over its elements, which yields at
    /// least one.
    pub fn into_iter_ne(self) -> (r: NonEmpty<std::vec::IntoIter<T>>)
        requires
            self.wf(),
        ensures
            r.lawful(),
            r@.remaining().len() >= 1,
            r@.remaining() == self@,
    {
        NonEmpty::new_unchecked(self.inner.into_iter())
    }

    /// Hands out the elements as a non-empty view that is never freed.
    pub fn leak<'a>(self) -> (r: SliceMut<'a, T>)
        requires
            self.wf(),
        ensures
            r@ == self@,
            r.wf(),
    {
        Slice::new_mut_unchecked(vec_leak(self.inner))
    }
}

/// The accessors that a non-empty sequence can promise: where a slice hands
/// out an `Option`, they hand out the element.
impl<T> Vec<T> {
    /// Returns the number of elements, which is not zero.
    pub fn len_ne(&self) -> (n: NonZeroLen)
        requires
            self.wf(),
        ensures
            n@ == self@.len(),
    {
        self.as_slice_ne().len_ne()
    }

    /// Returns the first element.
    pub fn first(&self) -> (r: &T)
        requires
            self.wf(),
        ensures
            *r == self@[0],
    {
        self.as_slice_ne().first()
    }

    /// Returns the last element.
    pub fn last(&self) -> (r: &T)
        requires
            self.wf(),
        ensures
            *r == self@.last(),
    {
        self.as_slice_ne().last()
    }

    /// Returns the first element and the elements after it.
    pub fn split_first(&self) -> (r: (&T, &[T]))
        requires
            self.wf(),
        ensures
            *r.0 == self@[0],
            r.1@ == self@.drop_first(),
    {
        self.as_slice_ne().split_first()
    }

    /// Returns the last element and the elements before it.
    pub fn split_last(&self) -> (r: (&T, &[T]))
        requires
            self.wf(),
        ensures
            *r.0 == self@.last(),
            r.1@ == self@.drop_last(),
    {
        self.as_slice_ne().split_last()
    }

    /// Returns an iterator over references to the elements, which yields at
    /// least one.
    pub fn iter_ne(&self) -> (r: NonEmpty<core::slice::Iter<'_, T>>)
        requires
            self.wf(),
        ensures
            r.lawful(),
            r@.remaining().len() >= 1,
            r@.remaining() == self@.as_ref(),
            r@.remaining().len() == self@.len(),
    {
        self.as_slice_ne().iter_ne()
    }

    /// Returns the first element, to be read or replaced.
    pub fn first_mut(&mut self) -> (r: &mut T)
        requires
            old(self).wf(),
        ensures
            *r == old(self)@[0],
            final(self)@ == old(self)@.update(0, *final(r)),
            final(self).wf(),
    {
        let elements: &mut [T] = self.inner.as_mut_slice();
        match elements.first_mut() {
            Some(first) => first,
            None => unreached(),
        }
    }

    /// Returns the last element, to be read or replaced.
    pub fn last_mut(&mut self) -> (r: &mut T)
        requires
            old(self).wf(),
        ensures
            *r == old(self)@.last(),
            final(self)@ == old(self)@.update(old(self)@.len() - 1, *final(r)),
            final(self).wf(),
    {
        let elements: &mut [T] = self.inner.as_mut_slice();
        match elements.last_mut() {
            Some(last) => last,
            None => unreached(),
        }
    }
}

} // verus!
