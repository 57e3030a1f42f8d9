//! A non-empty array of a fixed size.

use crate::iter::collect_all;
use crate::iter::NonEmpty;
use crate::nonzero::NonZeroLen;
use crate::slice::Slice;
use crate::slice::SliceMut;
use vstd::prelude::*;
use vstd::std_specs::iter::IteratorSpec;

verus! {

/// An array of `N` elements, where `N` is at least one.
///
/// The size is part of the type, so whether an array type is non-empty is
/// decided by `N` alone: [`Array::new`] accepts every value of a type with
/// `N >= 1` and none of the type with `N == 0`.
#[derive(Debug, Copy, Hash, Ord)]
pub struct Array<T, const N: usize> {
    inner: [T; N],
}

impl<T, const N: usize> View for Array<T, N> {
    type V = Seq<T>;

    closed spec fn view(&self) -> Seq<T> {
        self.inner@
    }
}

/// `<[T; N]>::each_ref`: an array of the same size that holds a reference to
/// each element, in order.
#[verifier::external_body]
fn array_each_ref<T, const N: usize>(array: &[T; N]) -> (r: [&T; N])
    ensures
        forall|i: int| 0 <= i < N ==> *(#[trigger] r@[i]) == array@[i],
{
    array.each_ref()
}

/// `<[T; N]>::each_mut`: an array of the same size that holds an exclusive
/// reference to each element, in order. What is written through the
/// reference at an index is what the array holds at that index afterwards.
#[verifier::external_body]
fn array_each_mut<T, const N: usize>(array: &mut [T; N]) -> (r: [&mut T; N])
    ensures
        forall|i: int| 0 <= i < N ==> *(#[trigger] r@[i]) == old(array)@[i],
        forall|i: int| 0 <= i < N ==> (#[trigger] final(array)@[i]) == *final(r@[i]),
{
    array.each_mut()
}

/// `<[T; N]>::map`: an array of the same size that holds, at each index, what
/// `f` returned for the element at that index.
#[verifier::external_body]
fn array_map<T, U, F: FnMut(T) -> U, const N: usize>(array: [T; N], f: F) -> (r: [U; N])
    requires
        forall|i: int| 0 <= i < N ==> call_requires(f, (#[trigger] array@[i],)),
    ensures
        forall|i: int| 0 <= i < N ==> call_ensures(f, (array@[i],), #[trigger] r@[i]),
{
    array.map(f)
}

/// `core::array::IntoIter`, the iterator that owns the elements of an array.
/// Nothing inside it is seen: it is only handed on, and what it yields is
/// stated by the function that makes it.
#[verifier::external_type_specification]
#[verifier::external_body]
#[verifier::reject_recursive_types(T)]
pub struct ExArrayIntoIter<T, const N: usize>(core::array::IntoIter<T, N>);

/// `<[T; N] as IntoIterator>::into_iter`: the iterator that yields the
/// elements of the array, in order, and then ends.
#[verifier::external_body]
fn array_into_iter<T, const N: usize>(array: [T; N]) -> (r: core::array::IntoIter<T, N>)
    ensures
        r.obeys_prophetic_iter_laws(),
        r.decrease() is Some,
        r.remaining() == array@,
{
    array.into_iter()
}

impl<T: Clone, const N: usize> Clone for Array<T, N> {
    fn clone(&self) -> (r: Self)
        ensures
            r@.len() == self@.len(),
            forall|i: int| 0 <= i < self@.len() ==> cloned(self@[i], #[trigger] r@[i]),
    {
        Array { inner: self.inner.clone() }
    }
}

impl<T, const N: usize> IntoIterator for Array<T, N> {
    type Item = T;

    type IntoIter = core::array::IntoIter<T, N>;

    /// Turns the array into an iterator over its elements.
    fn into_iter(self) -> (r: core::array::IntoIter<T, N>)
        ensures
            r.obeys_prophetic_iter_laws(),
            r.decrease() is Some,
            r.remaining() == self@,
    {
        array_into_iter(self.inner)
    }
}

impl<'a, T, const N: usize> IntoIterator for &'a Array<T, N> {
    type Item = &'a T;

    type IntoIter = core::slice::Iter<'a, T>;

    /// Returns an iterator over references to the elements.
    fn into_iter(self) -> (r: core::slice::Iter<'a, T>)
        ensures
            r.obeys_prophetic_iter_laws(),
            r.decrease() is Some,
            r.remaining() == self@.as_ref(),
    {
        self.inner.as_slice().iter()
    }
}

impl<T, const N: usize> Array<T, N> {
    /// The guarantee of this type: the size is at least one.
    pub open spec fn wf(&self) -> bool {
        N >= 1
    }

    /// The view of an array has the size of the array.
    pub proof fn lemma_len(&self)
        ensures
            self@.len() == N,
    {
    }

    /// The value that wraps `inner`.
    pub closed spec fn spec_new(inner: [T; N]) -> Self {
        Array { inner }
    }

    /// The underlying array.
    pub closed spec fn spec_inner(self) -> [T; N] {
        self.inner
    }

    /// Wrapping the underlying array of a value gives the value again.
    pub proof fn lemma_spec_new_inner(value: Self)
        ensures
            Self::spec_new(value.spec_inner()) == value,
            value.spec_inner()@ == value@,
    {
    }

    /// Wraps `inner` as it is.
    pub(crate) fn wrap(inner: [T; N]) -> (r: Self)
        ensures
            r == Self::spec_new(inner),
            r@ == inner@,
    {
        Array { inner }
    }

    /// Wraps `src`, or returns `None` if the size of the array is zero.
    pub fn new(src: [T; N]) -> (r: Option<Self>)
        ensures
            N == 0 ==> r is None,
            N >= 1 ==> r == Some(Self::spec_new(src)) && r->0@ == src@ && r->0.wf(),
    {
        if N == 0 {
            None
        } else {
            Some(Array { inner: src })
        }
    }

    /// Wraps a `src` whose size the caller knows not to be zero.
    pub fn new_unchecked(src: [T; N]) -> (r: Self)
        requires
            N >= 1,
        ensures
            r@ == src@,
            r.wf(),
    {
        if N == 0 {
            // Only a caller that was not verified can come here.
            unreached()
        } else {
            Array { inner: src }
        }
    }

    /// Returns an array of the same size that holds a reference to each
    /// element.
    pub fn each_ref(&self) -> (r: Array<&T, N>)
        requires
            self.wf(),
        ensures
            r.wf(),
            r@.len() == N,
            forall|i: int| 0 <= i < N ==> *(#[trigger] r@[i]) == self@[i],
    {
        Array { inner: array_each_ref(&self.inner) }
    }

    /// Returns an array of the same size that holds an exclusive reference
    /// to each element.
    pub fn each_mut(&mut self) -> (r: Array<&mut T, N>)
        requires
            old(self).wf(),
        ensures
            r.wf(),
            r@.len() == N,
            forall|i: int| 0 <= i < N ==> *(#[trigger] r@[i]) == old(self)@[i],
            forall|i: int| 0 <= i < N ==> (#[trigger] final(self)@[i]) == *final(r@[i]),
            final(self).wf(),
    {
        Array { inner: array_each_mut(&mut self.inner) }
    }

    /// Returns an array of the same size that holds what `f` returns for
    /// each element, in order.
    pub fn each_map<F, U>(self, f: F) -> (r: Array<U, N>) where F: FnMut(T) -> U
        requires
            self.wf(),
            forall|i: int| 0 <= i < N ==> call_requires(f, (#[trigger] self@[i],)),
        ensures
            r.wf(),
            r@.len() == N,
            forall|i: int| 0 <= i < N ==> call_ensures(f, (self@[i],), #[trigger] r@[i]),
    {
        assert forall|i: int| 0 <= i < N implies call_requires(f, (#[trigger] self.inner@[i],)) by {
            assert(call_requires(f, (self@[i],)));
        }
        Array { inner: array_map(self.inner, f) }
    }

    /// Views the elements as a shared non-empty view.
    pub fn as_slice_ne(&self) -> (r: Slice<'_, T>)
        requires
            self.wf(),
        ensures
            r@ == self@,
            r.wf(),
    {
        Slice::new_unchecked(self.inner.as_slice())
    }

    /// Views the elements as a non-empty view that is open to changes.
    pub fn as_mut_slice_ne(&mut self) -> (r: SliceMut<'_, T>)
        requires
            old(self).wf(),
        ensures
            r@ == old(self)@,
            r.wf(),
            final(self)@ == final(r.target())@,
            final(self).wf(),
    {
        let slice: &mut [T] = &mut self.inner;
        Slice::new_mut_unchecked(slice)
    }

    /// Returns the elements as a shared slice.
    pub fn as_slice(&self) -> (r: &[T])
        ensures
            r@ == self@,
    {
        self.inner.as_slice()
    }

    /// Returns the underlying array.
    pub fn as_array(&self) -> (r: &[T; N])
        ensures
            *r == self.spec_inner(),
            r@ == self@,
    {
        &self.inner
    }

    /// Returns the underlying array, open to changes. The size is fixed, so
    /// no change can empty it.
    pub fn as_mut_array(&mut self) -> (r: &mut [T; N])
        ensures
            r@ == old(self)@,
            final(self)@ == final(r)@,
            final(self).wf() == old(self).wf(),
    {
        &mut self.inner
    }

    /// Turns the array into an iterator over its elements, which yields at
    /// least one.
    pub fn into_iter_ne(self) -> (r: NonEmpty<core::array::IntoIter<T, N>>)
        requires
            self.wf(),
        ensures
            r.lawful(),
            r@.remaining().len() >= 1,
            r@.remaining() == self@,
    {
        NonEmpty::new_unchecked(array_into_iter(self.inner))
    }

    /// Moves the elements into a vector of the standard library, in order.
    pub(crate) fn into_std_vec(self) -> (r: std::vec::Vec<T>)
        ensures
            r@ == self@,
    {
        collect_all(array_into_iter(self.inner))
    }

    /// Unwraps the underlying array.
    pub fn into_array(self) -> (r: [T; N])
        ensures
            r == self.spec_inner(),
            r@ == self@,
    {
        let Array { inner } = self;
        inner
    }
}

impl<T> Array<T, 1> {
    /// Wraps a single element as an array of size one.
    pub fn of(item: T) -> (r: Self)
        ensures
            r@ == seq![item],
            r.wf(),
    {
        Array { inner: [item] }
    }
}

/// The accessors that a non-empty sequence can promise: where a slice hands
/// out an `Option`, they hand out the element.
impl<T, const N: usize> Array<T, N> {
    /// Returns the number of elements, which is not zero.
    pub fn len_ne(&self) -> (n: NonZeroLen)
        requires
            self.wf(),
        ensures
            n@ == self@.len(),
    {
        self.as_slice_ne().len_ne()
    }

    /// Returns the first element.
    pub fn first(&self) -> (r: &T)
        requires
            self.wf(),
        ensures
            *r == self@[0],
    {
        self.as_slice_ne().first()
    }

    /// Returns the last element.
    pub fn last(&self) -> (r: &T)
        requires
            self.wf(),
        ensures
            *r == self@.last(),
    {
        self.as_slice_ne().last()
    }

    /// Returns the first element and the elements after it.
    pub fn split_first(&self) -> (r: (&T, &[T]))
        requires
            self.wf(),
        ensures
            *r.0 == self@[0],
            r.1@ == self@.drop_first(),
    {
        self.as_slice_ne().split_first()
    }

    /// Returns the last element and the elements before it.
    pub fn split_last(&self) -> (r: (&T, &[T]))
        requires
            self.wf(),
        ensures
            *r.0 == self@.last(),
            r.1@ == self@.drop_last(),
    {
        self.as_slice_ne().split_last()
    }

    /// Returns an iterator over references to the elements, which yields at
    /// least one.
    pub fn iter_ne(&self) -> (r: NonEmpty<core::slice::Iter<'_, T>>)
        requires
            self.wf(),
        ensures
            r.lawful(),
            r@.remaining().len() >= 1,
            r@.remaining() == self@.as_ref(),
            r@.remaining().len() == self@.len(),
    {
        self.as_slice_ne().iter_ne()
    }

    /// Returns the first element, to be read or replaced.
    pub fn first_mut(&mut self) -> (r: &mut T)
        requires
            old(self).wf(),
        ensures
            *r == old(self)@[0],
            final(self)@ == old(self)@.update(0, *final(r)),
            final(self).wf(),
    {
        proof {
            old(self).lemma_len();
        }
        let elements: &mut [T] = &mut self.inner;
        match elements.first_mut() {
            Some(first) => first,
            None => unreached(),
        }
    }

    /// Returns the last element, to be read or replaced.
    pub fn last_mut(&mut self) -> (r: &mut T)
        requires
            old(self).wf(),
        ensures
            *r == old(self)@.last(),
            final(self)@ == old(self)@.update(old(self)@.len() - 1, *final(r)),
            final(self).wf(),
    {
        proof {
            old(self).lemma_len();
        }
        let elements: &mut [T] = &mut self.inner;
        match elements.last_mut() {
            Some(last) => last,
            None => unreached(),
        }
    }
}

} // verus!
