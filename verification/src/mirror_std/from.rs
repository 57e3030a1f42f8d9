//! The conversions between the non-empty types, and from them to the raw
//! sequences. None of them can fail.

use crate::array::Array;
use crate::slice::BoxedSlice;
use crate::slice::Slice;
use crate::slice::SliceMut;
use crate::vec::Vec;
use vstd::prelude::*;
use vstd::std_specs::convert::FromSpecImpl;

verus! {

/// A vector of clones of the elements of `slice`, in order.
fn clone_elements<T: Clone>(slice: &[T]) -> (r: std::vec::Vec<T>)
    ensures
        r@.len() == slice@.len(),
        forall|i: int| 0 <= i < slice@.len() ==> cloned(slice@[i], #[trigger] r@[i]),
{
    let mut elements: std::vec::Vec<T> = std::vec::Vec::with_capacity(slice.len());
    elements.extend_from_slice(slice);
    elements
}

// Unwrapping.

impl<T> From<Vec<T>> for std::vec::Vec<T> {
    /// Unwraps the underlying vector.
    fn from(value: Vec<T>) -> (r: Self)
        ensures
            r@ == value@,
    {
        value.into_vec()
    }
}

impl<T> FromSpecImpl<Vec<T>> for std::vec::Vec<T> {
    open spec fn obeys_from_spec() -> bool {
        true
    }

    open spec fn from_spec(value: Vec<T>) -> Self {
        value.spec_inner()
    }
}

impl<T, const N: usize> From<Array<T, N>> for [T; N] {
    /// Unwraps the underlying array.
    fn from(value: Array<T, N>) -> (r: Self)
        ensures
            r@ == value@,
    {
        value.into_array()
    }
}

impl<T, const N: usize> FromSpecImpl<Array<T, N>> for [T; N] {
    open spec fn obeys_from_spec() -> bool {
        true
    }

    open spec fn from_spec(value: Array<T, N>) -> Self {
        value.spec_inner()
    }
}

impl<'a, T> From<Slice<'a, T>> for &'a [T] {
    /// Unwraps the underlying slice.
    fn from(value: Slice<'a, T>) -> (r: Self)
        ensures
            r@ == value@,
    {
        value.as_slice()
    }
}

impl<'a, T> FromSpecImpl<Slice<'a, T>> for &'a [T] {
    open spec fn obeys_from_spec() -> bool {
        true
    }

    open spec fn from_spec(value: Slice<'a, T>) -> Self {
        value.spec_inner()
    }
}

impl<'a, T> From<SliceMut<'a, T>> for &'a mut [T] {
    /// Unwraps the underlying exclusive slice.
    fn from(value: SliceMut<'a, T>) -> (r: Self)
        ensures
            r@ == value@,
            final(r)@ == final(value.target())@,
    {
        value.into_mut_slice()
    }
}

impl<'a, T> FromSpecImpl<SliceMut<'a, T>> for &'a mut [T] {
    /// The result is the reference that the view held, with what will be
    /// written through it, which no function of the view names.
    open spec fn obeys_from_spec() -> bool {
        false
    }

    open spec fn from_spec(value: SliceMut<'a, T>) -> Self {
        value.target()
    }
}

impl<T> From<BoxedSlice<T>> for Box<[T]> {
    /// Unwraps the underlying boxed slice.
    fn from(value: BoxedSlice<T>) -> (r: Self)
        ensures
            r@ == value@,
    {
        value.into_boxed_slice()
    }
}

impl<T> FromSpecImpl<BoxedSlice<T>> for Box<[T]> {
    open spec fn obeys_from_spec() -> bool {
        true
    }

    open spec fn from_spec(value: BoxedSlice<T>) -> Self {
        value.spec_inner()
    }
}

// Into a non-empty vector.

impl<T, const N: usize> From<Array<T, N>> for Vec<T> {
    /// Moves the elements of the array into a vector, in order.
    fn from(value: Array<T, N>) -> (r: Self)
        ensures
            r@ == value@,
            value.wf() ==> r.wf(),
    {
        proof {
            value.lemma_len();
        }
        Vec::wrap(value.into_std_vec())
    }
}

impl<T, const N: usize> FromSpecImpl<Array<T, N>> for Vec<T> {
    /// The vector is a new allocation, which no function of the array names.
    open spec fn obeys_from_spec() -> bool {
        false
    }

    open spec fn from_spec(value: Array<T, N>) -> Self {
        arbitrary()
    }
}

impl<'a, T: Clone> From<Slice<'a, T>> for Vec<T> {
    /// Clones the elements of the view into a vector, in order.
    fn from(value: Slice<'a, T>) -> (r: Self)
        ensures
            r@.len() == value@.len(),
            forall|i: int| 0 <= i < value@.len() ==> cloned(value@[i], #[trigger] r@[i]),
            value.wf() ==> r.wf(),
    {
        Vec::wrap(clone_elements(value.as_slice()))
    }
}

impl<'a, T: Clone> FromSpecImpl<Slice<'a, T>> for Vec<T> {
    /// The vector is a new allocation, which no function of the view names.
    open spec fn obeys_from_spec() -> bool {
        false
    }

    open spec fn from_spec(value: Slice<'a, T>) -> Self {
        arbitrary()
    }
}

impl<'a, T: Clone, const N: usize> From<&'a Array<T, N>> for Vec<T> {
    /// Clones the elements of the array into a vector, in order.
    fn from(value: &'a Array<T, N>) -> (r: Self)
        ensures
            r@.len() == value@.len(),
            forall|i: int| 0 <= i < value@.len() ==> cloned(value@[i], #[trigger] r@[i]),
            value.wf() ==> r.wf(),
    {
        proof {
            value.lemma_len();
        }
        Vec::wrap(clone_elements(value.as_slice()))
    }
}

impl<'a, T: Clone, const N: usize> FromSpecImpl<&'a Array<T, N>> for Vec<T> {
    /// The vector is a new allocation, which no function of the array names.
    open spec fn obeys_from_spec() -> bool {
        false
    }

    open spec fn from_spec(value: &'a Array<T, N>) -> Self {
        arbitrary()
    }
}

impl<T> From<BoxedSlice<T>> for Vec<T> {
    /// Turns the boxed elements into a vector, in order.
    fn from(value: BoxedSlice<T>) -> (r: Self)
        ensures
            r@ == value@,
            value.wf() ==> r.wf(),
    {
        Vec::wrap(value.into_boxed_slice().into_vec())
    }
}

impl<T> FromSpecImpl<BoxedSlice<T>> for Vec<T> {
    /// The vector is a new value, which no function of the boxed slice
    /// names.
    open spec fn obeys_from_spec() -> bool {
        false
    }

    open spec fn from_spec(value: BoxedSlice<T>) -> Self {
        arbitrary()
    }
}

// Into a non-empty boxed slice.

impl<T> From<Vec<T>> for BoxedSlice<T> {
    /// Moves the elements of the vector into an allocation of their exact
    /// size.
    fn from(value: Vec<T>) -> (r: Self)
        ensures
            r@ == value@,
            value.wf() ==> r.wf(),
    {
        BoxedSlice::wrap(crate::slice::vec_into_boxed_slice(value.into_vec()))
    }
}

impl<T> FromSpecImpl<Vec<T>> for BoxedSlice<T> {
    /// The boxed slice is a new value, which no function of the vector
    /// names.
    open spec fn obeys_from_spec() -> bool {
        false
    }

    open spec fn from_spec(value: Vec<T>) -> Self {
        arbitrary()
    }
}

impl<T, const N: usize> From<Array<T, N>> for BoxedSlice<T> {
    /// Moves the elements of the array into an allocation of their exact
    /// size.
    fn from(value: Array<T, N>) -> (r: Self)
        ensures
            r@ == value@,
            value.wf() ==> r.wf(),
    {
        proof {
            value.lemma_len();
        }
        BoxedSlice::wrap(crate::slice::vec_into_boxed_slice(value.into_std_vec()))
    }
}

impl<T, const N: usize> FromSpecImpl<Array<T, N>> for BoxedSlice<T> {
    /// The boxed slice is a new allocation, which no function of the array
    /// names.
    open spec fn obeys_from_spec() -> bool {
        false
    }

    open spec fn from_spec(value: Array<T, N>) -> Self {
        arbitrary()
    }
}

impl<'a, T: Clone> From<Slice<'a, T>> for BoxedSlice<T> {
    /// Clones the elements of the view into an allocation of their exact
    /// size.
    fn from(value: Slice<'a, T>) -> (r: Self)
        ensures
            r@.len() == value@.len(),
            forall|i: int| 0 <= i < value@.len() ==> cloned(value@[i], #[trigger] r@[i]),
            value.wf() ==> r.wf(),
    {
        BoxedSlice::wrap(crate::slice::vec_into_boxed_slice(clone_elements(value.as_slice())))
    }
}

impl<'a, T: Clone> FromSpecImpl<Slice<'a, T>> for BoxedSlice<T> {
    /// The boxed slice is a new allocation, which no function of the view
    /// names.
    open spec fn obeys_from_spec() -> bool {
        false
    }

    open spec fn from_spec(value: Slice<'a, T>) -> Self {
        arbitrary()
    }
}

// Borrowing.

impl<'a, T> From<&'a Vec<T>> for &'a std::vec::Vec<T> {
    /// Borrows the underlying vector.
    fn from(value: &'a Vec<T>) -> (r: Self)
        ensures
            r@ == value@,
    {
        value.as_vec()
    }
}

impl<'a, T> FromSpecImpl<&'a Vec<T>> for &'a std::vec::Vec<T> {
    open spec fn obeys_from_spec() -> bool {
        true
    }

    open spec fn from_spec(value: &'a Vec<T>) -> Self {
        &value.spec_inner()
    }
}

impl<'a, T, const N: usize> From<&'a Array<T, N>> for &'a [T; N] {
    /// Borrows the underlying array.
    fn from(value: &'a Array<T, N>) -> (r: Self)
        ensures
            r@ == value@,
    {
        value.as_array()
    }
}

impl<'a, T, const N: usize> FromSpecImpl<&'a Array<T, N>> for &'a [T; N] {
    open spec fn obeys_from_spec() -> bool {
        true
    }

    open spec fn from_spec(value: &'a Array<T, N>) -> Self {
        &value.spec_inner()
    }
}

impl<'a, T> From<&'a Vec<T>> for Slice<'a, T> {
    /// Views the elements of the vector.
    fn from(value: &'a Vec<T>) -> (r: Self)
        ensures
            r@ == value@,
            value.wf() ==> r.wf(),
    {
        Slice::wrap(value.as_slice())
    }
}

impl<'a, T> FromSpecImpl<&'a Vec<T>> for Slice<'a, T> {
    /// The view borrows the elements as a slice, which no function of the
    /// vector names.
    open spec fn obeys_from_spec() -> bool {
        false
    }

    open spec fn from_spec(value: &'a Vec<T>) -> Self {
        arbitrary()
    }
}

impl<'a, T, const N: usize> From<&'a Array<T, N>> for Slice<'a, T> {
    /// Views the elements of the array.
    fn from(value: &'a Array<T, N>) -> (r: Self)
        ensures
            r@ == value@,
            value.wf() ==> r.wf(),
    {
        proof {
            value.lemma_len();
        }
        Slice::wrap(value.as_slice())
    }
}

impl<'a, T, const N: usize> FromSpecImpl<&'a Array<T, N>> for Slice<'a, T> {
    /// The view borrows the elements as a slice, which no function of the
    /// array names.
    open spec fn obeys_from_spec() -> bool {
        false
    }

    open spec fn from_spec(value: &'a Array<T, N>) -> Self {
        arbitrary()
    }
}

} // verus!
