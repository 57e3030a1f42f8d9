//! Non-empty views of a borrowed sequence.

use crate::iter::NonEmpty;
use crate::nonzero::NonZeroLen;
use vstd::prelude::*;
use vstd::std_specs::iter::IteratorSpec;

verus! {

/// A shared view of a borrowed sequence that holds at least one element.
///
/// The view never owns its elements. It is as cheap to copy as the slice it
/// wraps.
#[derive(Debug, Hash, Ord)]
pub struct Slice<'a, T> {
    inner: &'a [T],
}

impl<'a, T> View for Slice<'a, T> {
    type V = Seq<T>;

    closed spec fn view(&self) -> Seq<T> {
        self.inner@
    }
}

impl<'a, T> Clone for Slice<'a, T> {
    fn clone(&self) -> (r: Self)
        ensures
            r == *self,
    {
        Slice { inner: self.inner }
    }
}

impl<'a, T> Copy for Slice<'a, T> {

}

impl<'a, T> IntoIterator for Slice<'a, T> {
    type Item = &'a T;

    type IntoIter = core::slice::Iter<'a, T>;

    /// Returns an iterator over references to the elements.
    fn into_iter(self) -> (r: core::slice::Iter<'a, T>)
        ensures
            r.obeys_prophetic_iter_laws(),
            r.decrease() is Some,
            r.remaining() == self@.as_ref(),
    {
        self.inner.iter()
    }
}

/// `core::slice::from_ref`: the slice of length one whose element is `item`.
#[verifier::external_body]
fn slice_from_ref<T>(item: &T) -> (r: &[T])
    ensures
        r@ == seq![*item],
{
    core::slice::from_ref(item)
}

/// `core::slice::from_mut`: the exclusive slice of length one whose element
/// is `item`. What is written to the element is written to `item`.
#[verifier::external_body]
fn slice_from_mut<T>(item: &mut T) -> (r: &mut [T])
    ensures
        r@ == seq![*old(item)],
        final(r)@.len() == 1,
        final(r)@[0] == *final(item),
{
    core::slice::from_mut(item)
}

impl<'a, T> Slice<'a, T> {
    /// The guarantee of this type: there is at least one element.
    pub open spec fn wf(&self) -> bool {
        self@.len() >= 1
    }

    /// The view of `inner`.
    pub closed spec fn spec_new(inner: &'a [T]) -> Self {
        Slice { inner }
    }

    /// The underlying slice.
    pub closed spec fn spec_inner(self) -> &'a [T] {
        self.inner
    }

    /// Viewing the underlying slice of a view gives the view again.
    pub proof fn lemma_spec_new_inner(value: Self)
        ensures
            Self::spec_new(value.spec_inner()) == value,
            value.spec_inner()@ == value@,
    {
    }

    /// Views `inner` as it is. The result is non-empty if `inner` is.
    pub(crate) fn wrap(inner: &'a [T]) -> (r: Self)
        ensures
            r == Self::spec_new(inner),
            r@ == inner@,
    {
        Slice { inner }
    }

    /// Views `src` as non-empty, or returns `None` if it holds no element.
    pub fn new(src: &'a [T]) -> (r: Option<Self>)
        ensures
            src@.len() == 0 ==> r is None,
            src@.len() >= 1 ==> r == Some(Self::spec_new(src)) && r->0@ == src@ && r->0.wf(),
    {
        if src.len() == 0 {
            None
        } else {
            Some(Slice { inner: src })
        }
    }

    /// Views a `src` that the caller knows to hold an element.
    pub fn new_unchecked(src: &'a [T]) -> (r: Self)
        requires
            src@.len() >= 1,
        ensures
            r@ == src@,
            r.wf(),
    {
        if src.len() == 0 {
            // Only a caller that was not verified can come here.
            unreached()
        } else {
            Slice { inner: src }
        }
    }

    /// Views `src` as non-empty and open to changes, or returns `None` if
    /// it holds no element.
    pub fn new_mut(src: &'a mut [T]) -> (r: Option<SliceMut<'a, T>>)
        ensures
            old(src)@.len() == 0 ==> r is None && final(src)@ == old(src)@,
            old(src)@.len() >= 1 ==> r is Some && r->0@ == old(src)@ && r->0.wf()
                && final(src)@ == final(r->0.target())@,
    {
        if src.len() == 0 {
            None
        } else {
            Some(SliceMut { inner: src })
        }
    }

    /// Views, open to changes, a `src` that the caller knows to hold an
    /// element.
    pub fn new_mut_unchecked(src: &'a mut [T]) -> (r: SliceMut<'a, T>)
        requires
            old(src)@.len() >= 1,
        ensures
            r@ == old(src)@,
            r.wf(),
            final(src)@ == final(r.target())@,
    {
        if src.len() == 0 {
            // Only a caller that was not verified can come here.
            unreached()
        } else {
            SliceMut { inner: src }
        }
    }

    /// Views a single element as a sequence of length one.
    pub fn of(item: &'a T) -> (r: Self)
        ensures
            r@ == seq![*item],
            r.wf(),
    {
        Slice { inner: slice_from_ref(item) }
    }

    /// Views a single element, open to changes, as a sequence of length
    /// one.
    pub fn of_mut(item: &'a mut T) -> (r: SliceMut<'a, T>)
        ensures
            r@ == seq![*old(item)],
            r.wf(),
            final(r.target())@.len() == 1,
            final(r.target())@[0] == *final(item),
    {
        SliceMut { inner: slice_from_mut(item) }
    }

    /// Returns the underlying slice.
    pub fn as_slice(&self) -> (r: &'a [T])
        ensures
            r == self.spec_inner(),
            r@ == self@,
    {
        self.inner
    }

    /// Returns the number of elements.
    pub fn len(&self) -> (n: usize)
        ensures
            n == self@.len(),
    {
        self.inner.len()
    }

    /// Returns the number of elements, which is not zero.
    pub fn len_ne(&self) -> (n: NonZeroLen)
        requires
            self.wf(),
        ensures
            n@ == self@.len(),
    {
        NonZeroLen::new_unchecked(self.inner.len())
    }

    /// Returns the first element.
    pub fn first(&self) -> (r: &'a T)
        requires
            self.wf(),
        ensures
            *r == self@[0],
    {
        &self.inner[0]
    }

    /// Returns the last element.
    pub fn last(&self) -> (r: &'a T)
        requires
            self.wf(),
        ensures
            *r == self@.last(),
    {
        &self.inner[self.inner.len() - 1]
    }

    /// Returns an iterator over references to the elements, which yields at
    /// least one. A fresh iterator can be had from the same view at any
    /// time.
    pub fn iter_ne(&self) -> (r: NonEmpty<core::slice::Iter<'a, T>>)
        requires
            self.wf(),
        ensures
            r.lawful(),
            r@.remaining().len() >= 1,
            r@.remaining() == self@.as_ref(),
            r@.remaining().len() == self@.len(),
    {
        NonEmpty::new_unchecked(self.inner.iter())
    }

    /// Returns the first element and the elements after it.
    pub fn split_first(&self) -> (r: (&'a T, &'a [T]))
        requires
            self.wf(),
        ensures
            *r.0 == self@[0],
            r.1@ == self@.drop_first(),
    {
        let (head, tail) = self.inner.split_at(1);
        (&head[0], tail)
    }

    /// Returns the last element and the elements before it.
    pub fn split_last(&self) -> (r: (&'a T, &'a [T]))
        requires
            self.wf(),
        ensures
            *r.0 == self@.last(),
            r.1@ == self@.drop_last(),
    {
        let (init, tail) = self.inner.split_at(self.inner.len() - 1);
        (&tail[0], init)
    }
}

/// An exclusive view of a borrowed sequence that holds at least one element.
///
/// Elements can be replaced through the view. The sequence cannot grow or
/// shrink, so the view stays non-empty whatever is written.
///
/// The owner of the sequence finds in it what was written through the view.
/// In a proof this is learned when the view is given up: by
/// [`SliceMut::into_mut_slice`], or, once the view is not used any more, by
/// [`SliceMut::lemma_released`].
#[derive(Debug, Hash)]
pub struct SliceMut<'a, T> {
    inner: &'a mut [T],
}

impl<'a, T> View for SliceMut<'a, T> {
    type V = Seq<T>;

    closed spec fn view(&self) -> Seq<T> {
        self.inner@
    }
}

impl<'a, T> SliceMut<'a, T> {
    /// The exclusive reference that this view holds. Its final value is the
    /// borrowed sequence as its owner finds it once the view is gone.
    pub closed spec fn target(&self) -> &'a mut [T] {
        self.inner
    }

    /// The guarantee of this type: there is at least one element.
    pub open spec fn wf(&self) -> bool {
        self@.len() >= 1
    }

    /// Returns the elements as a shared slice.
    pub fn as_slice(&self) -> (r: &[T])
        ensures
            r@ == self@,
    {
        &*self.inner
    }

    /// Returns the elements as an exclusive slice.
    pub fn as_mut_slice(&mut self) -> (r: &mut [T])
        ensures
            r@ == old(self)@,
            final(self)@ == final(r)@,
            final(final(self).target())@ == final(old(self).target())@,
    {
        &mut *self.inner
    }

    /// Once nothing is written through the view any more, the borrowed
    /// sequence holds what the view shows.
    pub proof fn lemma_released(self)
        requires
            has_resolved(self),
        ensures
            final(self.target())@ == self@,
    {
    }

    /// Gives up the view for the exclusive slice that it holds.
    pub fn into_mut_slice(self) -> (r: &'a mut [T])
        ensures
            r@ == self@,
            final(r)@ == final(self.target())@,
    {
        self.inner
    }

    /// Views the elements as a shared non-empty view.
    pub fn as_slice_ne(&self) -> (r: Slice<'_, T>)
        requires
            self.wf(),
        ensures
            r@ == self@,
            r.wf(),
    {
        Slice { inner: &*self.inner }
    }

    /// Returns the number of elements.
    pub fn len(&self) -> (n: usize)
        ensures
            n == self@.len(),
    {
        self.inner.len()
    }

    /// Returns the number of elements, which is not zero.
    pub fn len_ne(&self) -> (n: NonZeroLen)
        requires
            self.wf(),
        ensures
            n@ == self@.len(),
    {
        NonZeroLen::new_unchecked(self.inner.len())
    }

    /// Returns the first element.
    pub fn first(&self) -> (r: &T)
        requires
            self.wf(),
        ensures
            *r == self@[0],
    {
        &self.inner[0]
    }

    /// Returns the last element.
    pub fn last(&self) -> (r: &T)
        requires
            self.wf(),
        ensures
            *r == self@.last(),
    {
        &self.inner[self.inner.len() - 1]
    }

    /// Returns the first element, to be read or replaced.
    pub fn first_mut(&mut self) -> (r: &mut T)
        requires
            old(self).wf(),
        ensures
            *r == old(self)@[0],
            final(self)@ == old(self)@.update(0, *final(r)),
            final(self).wf(),
            final(final(self).target())@ == final(old(self).target())@,
    {
        match self.inner.first_mut() {
            Some(first) => first,
            None => unreached(),
        }
    }

    /// Returns the last element, to be read or replaced.
    pub fn last_mut(&mut self) -> (r: &mut T)
        requires
            old(self).wf(),
        ensures
            *r == old(self)@.last(),
            final(self)@ == old(self)@.update(old(self)@.len() - 1, *final(r)),
            final(self).wf(),
            final(final(self).target())@ == final(old(self).target())@,
    {
        match self.inner.last_mut() {
            Some(last) => last,
            None => unreached(),
        }
    }

    /// Returns the first element and the elements after it, all to be read
    /// or replaced.
    pub fn split_first_mut(&mut self) -> (r: (&mut T, &mut [T]))
        requires
            old(self).wf(),
        ensures
            *r.0 == old(self)@[0],
            r.1@ == old(self)@.drop_first(),
            final(self)@ == seq![*final(r.0)] + final(r.1)@,
            final(self).wf(),
            final(final(self).target())@ == final(old(self).target())@,
    {
        let (head, tail) = self.inner.split_at_mut(1);
        match head.first_mut() {
            Some(first) => (first, tail),
            None => unreached(),
        }
    }

    /// Returns the last element and the elements before it, all to be read
    /// or replaced.
    pub fn split_last_mut(&mut self) -> (r: (&mut T, &mut [T]))
        requires
            old(self).wf(),
        ensures
            *r.0 == old(self)@.last(),
            r.1@ == old(self)@.drop_last(),
            final(self)@ == final(r.1)@.push(*final(r.0)),
            final(self).wf(),
            final(final(self).target())@ == final(old(self).target())@,
    {
        let n = self.inner.len();
        let (init, tail) = self.inner.split_at_mut(n - 1);
        match tail.first_mut() {
            Some(last) => (last, init),
            None => unreached(),
        }
    }
}

/// An owned, heap-allocated sequence of a fixed length that holds at least
/// one element.
#[derive(Debug, Hash)]
pub struct BoxedSlice<T> {
    inner: Box<[T]>,
}

impl<T> View for BoxedSlice<T> {
    type V = Seq<T>;

    closed spec fn view(&self) -> Seq<T> {
        self.inner@
    }
}

impl<T: Clone> Clone for BoxedSlice<T> {
    fn clone(&self) -> (r: Self)
        ensures
            r@.len() == self@.len(),
            forall|i: int| 0 <= i < self@.len() ==> cloned(self@[i], #[trigger] r@[i]),
    {
        let mut elements: std::vec::Vec<T> = std::vec::Vec::new();
        elements.extend_from_slice(self.as_slice());
        BoxedSlice { inner: vec_into_boxed_slice(elements) }
    }
}

impl<T> IntoIterator for BoxedSlice<T> {
    type Item = T;

    type IntoIter = std::vec::IntoIter<T>;

    /// Turns the boxed slice into an iterator over its elements.
    fn into_iter(self) -> (r: std::vec::IntoIter<T>)
        ensures
            r.obeys_prophetic_iter_laws(),
            r.decrease() is Some,
            r.remaining() == self@,
    {
        self.inner.into_vec().into_iter()
    }
}

/// `Vec::into_boxed_slice`: the elements of the vector, in order, in an
/// allocation of their exact size.
#[verifier::external_body]
pub(crate) fn vec_into_boxed_slice<T>(vec: std::vec::Vec<T>) -> (r: Box<[T]>)
    ensures
        r@ == vec@,
{
    vec.into_boxed_slice()
}

impl<T> BoxedSlice<T> {
    /// The guarantee of this type: there is at least one element.
    pub open spec fn wf(&self) -> bool {
        self@.len() >= 1
    }

    /// The value that wraps `inner`.
    pub closed spec fn spec_new(inner: Box<[T]>) -> Self {
        BoxedSlice { inner }
    }

    /// The underlying boxed slice.
    pub closed spec fn spec_inner(self) -> Box<[T]> {
        self.inner
    }

    /// Wrapping the underlying boxed slice of a value gives the value
    /// again.
    pub proof fn lemma_spec_new_inner(value: Self)
        ensures
            Self::spec_new(value.spec_inner()) == value,
            value.spec_inner()@ == value@,
    {
    }

    /// Wraps `inner` as it is. The result is non-empty if `inner` is.
    pub(crate) fn wrap(inner: Box<[T]>) -> (r: Self)
        ensures
            r == Self::spec_new(inner),
            r@ == inner@,
    {
        BoxedSlice { inner }
    }

    /// Wraps `src`, or hands it back unchanged if it holds no element.
    pub fn new(src: Box<[T]>) -> (r: Result<Self, Box<[T]>>)
        ensures
            src@.len() == 0 ==> r is Err && r->Err_0 == src,
            src@.len() >= 1 ==> r is Ok && r->Ok_0 == Self::spec_new(src) && r->Ok_0@ == src@
                && r->Ok_0.wf(),
    {
        if src.len() == 0 {
            Err(src)
        } else {
            Ok(BoxedSlice { inner: src })
        }
    }

    /// Wraps a `src` that the caller knows to hold an element.
    pub fn new_unchecked(src: Box<[T]>) -> (r: Self)
        requires
            src@.len() >= 1,
        ensures
            r@ == src@,
            r.wf(),
    {
        if src.len() == 0 {
            // Only a caller that was not verified can come here.
            unreached()
        } else {
            BoxedSlice { inner: src }
        }
    }

    /// Returns the elements as a shared slice.
    pub fn as_slice(&self) -> (r: &[T])
        ensures
            r@ == self@,
    {
        &*self.inner
    }

    /// Views the elements as a shared non-empty view.
    pub fn as_slice_ne(&self) -> (r: Slice<'_, T>)
        requires
            self.wf(),
        ensures
            r@ == self@,
            r.wf(),
    {
        Slice { inner: &*self.inner }
    }

    /// Turns the boxed slice into an iterator over its elements, which
    /// yields at least one.
    pub fn into_iter_ne(self) -> (r: NonEmpty<std::vec::IntoIter<T>>)
        requires
            self.wf(),
        ensures
            r.lawful(),
            r@.remaining().len() >= 1,
            r@.remaining() == self@,
    {
        crate::vec::Vec::new_unchecked(self.inner.into_vec()).into_iter_ne()
    }

    /// Unwraps the underlying boxed slice.
    pub fn into_boxed_slice(self) -> (r: Box<[T]>)
        ensures
            r == self.spec_inner(),
            r@ == self@,
    {
        let BoxedSlice { inner } = self;
        inner
    }
}

} // verus!
