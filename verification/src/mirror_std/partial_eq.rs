//! Equality between the non-empty types and the raw sequences.
//!
//! For every two of a non-empty view, a non-empty array, a non-empty vector, a
//! slice, an array and a vector of the standard library, of which at least
//! one is a type of this crate, `==` compares the two underlying sequences
//! element by element.

use crate::array::Array;
use crate::sequence::elements_eq;
use crate::sequence::eq_slices;
use crate::slice::Slice;
use crate::vec::Vec;
use vstd::prelude::*;
use vstd::std_specs::cmp::PartialEqSpec;
use vstd::std_specs::cmp::PartialEqSpecImpl;

verus! {

// A non-empty view on the left.
impl<'a, 'b, T: PartialEq<U>, U> PartialEq<Slice<'b, U>> for Slice<'a, T> {
    /// Holds if the two sequences have equal elements at every index.
    fn eq(&self, other: &Slice<'b, U>) -> (r: bool)
    {
        eq_slices(self.as_slice(), other.as_slice())
    }
}

impl<'a, 'b, T: PartialEq<U>, U> PartialEqSpecImpl<Slice<'b, U>> for Slice<'a, T> {
    open spec fn obeys_eq_spec() -> bool {
        T::obeys_eq_spec()
    }

    open spec fn eq_spec(&self, other: &Slice<'b, U>) -> bool {
        elements_eq(self@, other@)
    }
}

impl<'a, T: PartialEq<U>, U, const N: usize> PartialEq<Array<U, N>> for Slice<'a, T> {
    /// Holds if the two sequences have equal elements at every index.
    fn eq(&self, other: &Array<U, N>) -> (r: bool)
    {
        eq_slices(self.as_slice(), other.as_slice())
    }
}

impl<'a, T: PartialEq<U>, U, const N: usize> PartialEqSpecImpl<Array<U, N>> for Slice<'a, T> {
    open spec fn obeys_eq_spec() -> bool {
        T::obeys_eq_spec()
    }

    open spec fn eq_spec(&self, other: &Array<U, N>) -> bool {
        elements_eq(self@, other@)
    }
}

impl<'a, T: PartialEq<U>, U> PartialEq<Vec<U>> for Slice<'a, T> {
    /// Holds if the two sequences have equal elements at every index.
    fn eq(&self, other: &Vec<U>) -> (r: bool)
    {
        eq_slices(self.as_slice(), other.as_slice())
    }
}

impl<'a, T: PartialEq<U>, U> PartialEqSpecImpl<Vec<U>> for Slice<'a, T> {
    open spec fn obeys_eq_spec() -> bool {
        T::obeys_eq_spec()
    }

    open spec fn eq_spec(&self, other: &Vec<U>) -> bool {
        elements_eq(self@, other@)
    }
}

impl<'a, T: PartialEq<U>, U> PartialEq<[U]> for Slice<'a, T> {
    /// Holds if the two sequences have equal elements at every index.
    fn eq(&self, other: &[U]) -> (r: bool)
    {
        eq_slices(self.as_slice(), other)
    }
}

impl<'a, T: PartialEq<U>, U> PartialEqSpecImpl<[U]> for Slice<'a, T> {
    open spec fn obeys_eq_spec() -> bool {
        T::obeys_eq_spec()
    }

    open spec fn eq_spec(&self, other: &[U]) -> bool {
        elements_eq(self@, other@)
    }
}

impl<'a, T: PartialEq<U>, U, const N: usize> PartialEq<[U; N]> for Slice<'a, T> {
    /// Holds if the two sequences have equal elements at every index.
    fn eq(&self, other: &[U; N]) -> (r: bool)
    {
        eq_slices(self.as_slice(), other.as_slice())
    }
}

impl<'a, T: PartialEq<U>, U, const N: usize> PartialEqSpecImpl<[U; N]> for Slice<'a, T> {
    open spec fn obeys_eq_spec() -> bool {
        T::obeys_eq_spec()
    }

    open spec fn eq_spec(&self, other: &[U; N]) -> bool {
        elements_eq(self@, other@)
    }
}

impl<'a, T: PartialEq<U>, U> PartialEq<std::vec::Vec<U>> for Slice<'a, T> {
    /// Holds if the two sequences have equal elements at every index.
    fn eq(&self, other: &std::vec::Vec<U>) -> (r: bool)
    {
        eq_slices(self.as_slice(), other.as_slice())
    }
}

impl<'a, T: PartialEq<U>, U> PartialEqSpecImpl<std::vec::Vec<U>> for Slice<'a, T> {
    open spec fn obeys_eq_spec() -> bool {
        T::obeys_eq_spec()
    }

    open spec fn eq_spec(&self, other: &std::vec::Vec<U>) -> bool {
        elements_eq(self@, other@)
    }
}

// A non-empty array on the left.
impl<'b, T: PartialEq<U>, U, const N: usize> PartialEq<Slice<'b, U>> for Array<T, N> {
    /// Holds if the two sequences have equal elements at every index.
    fn eq(&self, other: &Slice<'b, U>) -> (r: bool)
    {
        eq_slices(self.as_slice(), other.as_slice())
    }
}

impl<'b, T: PartialEq<U>, U, const N: usize> PartialEqSpecImpl<Slice<'b, U>> for Array<T, N> {
    open spec fn obeys_eq_spec() -> bool {
        T::obeys_eq_spec()
    }

    open spec fn eq_spec(&self, other: &Slice<'b, U>) -> bool {
        elements_eq(self@, other@)
    }
}

impl<T: PartialEq<U>, U, const N: usize> PartialEq<Array<U, N>> for Array<T, N> {
    /// Holds if the two sequences have equal elements at every index.
    fn eq(&self, other: &Array<U, N>) -> (r: bool)
    {
        eq_slices(self.as_slice(), other.as_slice())
    }
}

impl<T: PartialEq<U>, U, const N: usize> PartialEqSpecImpl<Array<U, N>> for Array<T, N> {
    open spec fn obeys_eq_spec() -> bool {
        T::obeys_eq_spec()
    }

    open spec fn eq_spec(&self, other: &Array<U, N>) -> bool {
        elements_eq(self@, other@)
    }
}

impl<T: PartialEq<U>, U, const N: usize> PartialEq<Vec<U>> for Array<T, N> {
    /// Holds if the two sequences have equal elements at every index.
    fn eq(&self, other: &Vec<U>) -> (r: bool)
    {
        eq_slices(self.as_slice(), other.as_slice())
    }
}

impl<T: PartialEq<U>, U, const N: usize> PartialEqSpecImpl<Vec<U>> for Array<T, N> {
    open spec fn obeys_eq_spec() -> bool {
        T::obeys_eq_spec()
    }

    open spec fn eq_spec(&self, other: &Vec<U>) -> bool {
        elements_eq(self@, other@)
    }
}

impl<T: PartialEq<U>, U, const N: usize> PartialEq<[U]> for Array<T, N> {
    /// Holds if the two sequences have equal elements at every index.
    fn eq(&self, other: &[U]) -> (r: bool)
    {
        eq_slices(self.as_slice(), other)
    }
}

impl<T: PartialEq<U>, U, const N: usize> PartialEqSpecImpl<[U]> for Array<T, N> {
    open spec fn obeys_eq_spec() -> bool {
        T::obeys_eq_spec()
    }

    open spec fn eq_spec(&self, other: &[U]) -> bool {
        elements_eq(self@, other@)
    }
}

impl<T: PartialEq<U>, U, const N: usize> PartialEq<[U; N]> for Array<T, N> {
    /// Holds if the two sequences have equal elements at every index.
    fn eq(&self, other: &[U; N]) -> (r: bool)
    {
        eq_slices(self.as_slice(), other.as_slice())
    }
}

impl<T: PartialEq<U>, U, const N: usize> PartialEqSpecImpl<[U; N]> for Array<T, N> {
    open spec fn obeys_eq_spec() -> bool {
        T::obeys_eq_spec()
    }

    open spec fn eq_spec(&self, other: &[U; N]) -> bool {
        elements_eq(self@, other@)
    }
}

impl<T: PartialEq<U>, U, const N: usize> PartialEq<std::vec::Vec<U>> for Array<T, N> {
    /// Holds if the two sequences have equal elements at every index.
    fn eq(&self, other: &std::vec::Vec<U>) -> (r: bool)
    {
        eq_slices(self.as_slice(), other.as_slice())
    }
}

impl<T: PartialEq<U>, U, const N: usize> PartialEqSpecImpl<std::vec::Vec<U>> for Array<T, N> {
    open spec fn obeys_eq_spec() -> bool {
        T::obeys_eq_spec()
    }

    open spec fn eq_spec(&self, other: &std::vec::Vec<U>) -> bool {
        elements_eq(self@, other@)
    }
}

// A non-empty vector on the left.
impl<'b, T: PartialEq<U>, U> PartialEq<Slice<'b, U>> for Vec<T> {
    /// Holds if the two sequences have equal elements at every index.
    fn eq(&self, other: &Slice<'b, U>) -> (r: bool)
    {
        eq_slices(self.as_slice(), other.as_slice())
    }
}

impl<'b, T: PartialEq<U>, U> PartialEqSpecImpl<Slice<'b, U>> for Vec<T> {
    open spec fn obeys_eq_spec() -> bool {
        T::obeys_eq_spec()
    }

    open spec fn eq_spec(&self, other: &Slice<'b, U>) -> bool {
        elements_eq(self@, other@)
    }
}

impl<T: PartialEq<U>, U, const N: usize> PartialEq<Array<U, N>> for Vec<T> {
    /// Holds if the two sequences have equal elements at every index.
    fn eq(&self, other: &Array<U, N>) -> (r: bool)
    {
        eq_slices(self.as_slice(), other.as_slice())
    }
}

impl<T: PartialEq<U>, U, const N: usize> PartialEqSpecImpl<Array<U, N>> for Vec<T> {
    open spec fn obeys_eq_spec() -> bool {
        T::obeys_eq_spec()
    }

    open spec fn eq_spec(&self, other: &Array<U, N>) -> bool {
        elements_eq(self@, other@)
    }
}

impl<T: PartialEq<U>, U> PartialEq<Vec<U>> for Vec<T> {
    /// Holds if the two sequences have equal elements at every index.
    fn eq(&self, other: &Vec<U>) -> (r: bool)
    {
        eq_slices(self.as_slice(), other.as_slice())
    }
}

impl<T: PartialEq<U>, U> PartialEqSpecImpl<Vec<U>> for Vec<T> {
    open spec fn obeys_eq_spec() -> bool {
        T::obeys_eq_spec()
    }

    open spec fn eq_spec(&self, other: &Vec<U>) -> bool {
        elements_eq(self@, other@)
    }
}

impl<T: PartialEq<U>, U> PartialEq<[U]> for Vec<T> {
    /// Holds if the two sequences have equal elements at every index.
    fn eq(&self, other: &[U]) -> (r: bool)
    {
        eq_slices(self.as_slice(), other)
    }
}

impl<T: PartialEq<U>, U> PartialEqSpecImpl<[U]> for Vec<T> {
    open spec fn obeys_eq_spec() -> bool {
        T::obeys_eq_spec()
    }

    open spec fn eq_spec(&self, other: &[U]) -> bool {
        elements_eq(self@, other@)
    }
}

impl<T: PartialEq<U>, U, const N: usize> PartialEq<[U; N]> for Vec<T> {
    /// Holds if the two sequences have equal elements at every index.
    fn eq(&self, other: &[U; N]) -> (r: bool)
    {
        eq_slices(self.as_slice(), other.as_slice())
    }
}

impl<T: PartialEq<U>, U, const N: usize> PartialEqSpecImpl<[U; N]> for Vec<T> {
    open spec fn obeys_eq_spec() -> bool {
        T::obeys_eq_spec()
    }

    open spec fn eq_spec(&self, other: &[U; N]) -> bool {
        elements_eq(self@, other@)
    }
}

impl<T: PartialEq<U>, U> PartialEq<std::vec::Vec<U>> for Vec<T> {
    /// Holds if the two sequences have equal elements at every index.
    fn eq(&self, other: &std::vec::Vec<U>) -> (r: bool)
    {
        eq_slices(self.as_slice(), other.as_slice())
    }
}

impl<T: PartialEq<U>, U> PartialEqSpecImpl<std::vec::Vec<U>> for Vec<T> {
    open spec fn obeys_eq_spec() -> bool {
        T::obeys_eq_spec()
    }

    open spec fn eq_spec(&self, other: &std::vec::Vec<U>) -> bool {
        elements_eq(self@, other@)
    }
}

// A raw sequence on the left.
impl<'b, T: PartialEq<U>, U> PartialEq<Slice<'b, U>> for [T] {
    /// Holds if the two sequences have equal elements at every index.
    fn eq(&self, other: &Slice<'b, U>) -> (r: bool)
    {
        eq_slices(self, other.as_slice())
    }
}

impl<'b, T: PartialEq<U>, U> PartialEqSpecImpl<Slice<'b, U>> for [T] {
    open spec fn obeys_eq_spec() -> bool {
        T::obeys_eq_spec()
    }

    open spec fn eq_spec(&self, other: &Slice<'b, U>) -> bool {
        elements_eq(self@, other@)
    }
}

impl<T: PartialEq<U>, U, const N: usize> PartialEq<Array<U, N>> for [T] {
    /// Holds if the two sequences have equal elements at every index.
    fn eq(&self, other: &Array<U, N>) -> (r: bool)
    {
        eq_slices(self, other.as_slice())
    }
}

impl<T: PartialEq<U>, U, const N: usize> PartialEqSpecImpl<Array<U, N>> for [T] {
    open spec fn obeys_eq_spec() -> bool {
        T::obeys_eq_spec()
    }

    open spec fn eq_spec(&self, other: &Array<U, N>) -> bool {
        elements_eq(self@, other@)
    }
}

impl<T: PartialEq<U>, U> PartialEq<Vec<U>> for [T] {
    /// Holds if the two sequences have equal elements at every index.
    fn eq(&self, other: &Vec<U>) -> (r: bool)
    {
        eq_slices(self, other.as_slice())
    }
}

impl<T: PartialEq<U>, U> PartialEqSpecImpl<Vec<U>> for [T] {
    open spec fn obeys_eq_spec() -> bool {
        T::obeys_eq_spec()
    }

    open spec fn eq_spec(&self, other: &Vec<U>) -> bool {
        elements_eq(self@, other@)
    }
}

impl<'b, T: PartialEq<U>, U, const N: usize> PartialEq<Slice<'b, U>> for [T; N] {
    /// Holds if the two sequences have equal elements at every index.
    fn eq(&self, other: &Slice<'b, U>) -> (r: bool)
    {
        eq_slices(self.as_slice(), other.as_slice())
    }
}

impl<'b, T: PartialEq<U>, U, const N: usize> PartialEqSpecImpl<Slice<'b, U>> for [T; N] {
    open spec fn obeys_eq_spec() -> bool {
        T::obeys_eq_spec()
    }

    open spec fn eq_spec(&self, other: &Slice<'b, U>) -> bool {
        elements_eq(self@, other@)
    }
}

impl<T: PartialEq<U>, U, const N: usize> PartialEq<Array<U, N>> for [T; N] {
    /// Holds if the two sequences have equal elements at every index.
    fn eq(&self, other: &Array<U, N>) -> (r: bool)
    {
        eq_slices(self.as_slice(), other.as_slice())
    }
}

impl<T: PartialEq<U>, U, const N: usize> PartialEqSpecImpl<Array<U, N>> for [T; N] {
    open spec fn obeys_eq_spec() -> bool {
        T::obeys_eq_spec()
    }

    open spec fn eq_spec(&self, other: &Array<U, N>) -> bool {
        elements_eq(self@, other@)
    }
}

impl<T: PartialEq<U>, U, const N: usize> PartialEq<Vec<U>> for [T; N] {
    /// Holds if the two sequences have equal elements at every index.
    fn eq(&self, other: &Vec<U>) -> (r: bool)
    {
        eq_slices(self.as_slice(), other.as_slice())
    }
}

impl<T: PartialEq<U>, U, const N: usize> PartialEqSpecImpl<Vec<U>> for [T; N] {
    open spec fn obeys_eq_spec() -> bool {
        T::obeys_eq_spec()
    }

    open spec fn eq_spec(&self, other: &Vec<U>) -> bool {
        elements_eq(self@, other@)
    }
}

impl<'b, T: PartialEq<U>, U> PartialEq<Slice<'b, U>> for std::vec::Vec<T> {
    /// Holds if the two sequences have equal elements at every index.
    fn eq(&self, other: &Slice<'b, U>) -> (r: bool)
    {
        eq_slices(self.as_slice(), other.as_slice())
    }
}

impl<'b, T: PartialEq<U>, U> PartialEqSpecImpl<Slice<'b, U>> for std::vec::Vec<T> {
    open spec fn obeys_eq_spec() -> bool {
        T::obeys_eq_spec()
    }

    open spec fn eq_spec(&self, other: &Slice<'b, U>) -> bool {
        elements_eq(self@, other@)
    }
}

impl<T: PartialEq<U>, U, const N: usize> PartialEq<Array<U, N>> for std::vec::Vec<T> {
    /// Holds if the two sequences have equal elements at every index.
    fn eq(&self, other: &Array<U, N>) -> (r: bool)
    {
        eq_slices(self.as_slice(), other.as_slice())
    }
}

impl<T: PartialEq<U>, U, const N: usize> PartialEqSpecImpl<Array<U, N>> for std::vec::Vec<T> {
    open spec fn obeys_eq_spec() -> bool {
        T::obeys_eq_spec()
    }

    open spec fn eq_spec(&self, other: &Array<U, N>) -> bool {
        elements_eq(self@, other@)
    }
}

impl<T: PartialEq<U>, U> PartialEq<Vec<U>> for std::vec::Vec<T> {
    /// Holds if the two sequences have equal elements at every index.
    fn eq(&self, other: &Vec<U>) -> (r: bool)
    {
        eq_slices(self.as_slice(), other.as_slice())
    }
}

impl<T: PartialEq<U>, U> PartialEqSpecImpl<Vec<U>> for std::vec::Vec<T> {
    open spec fn obeys_eq_spec() -> bool {
        T::obeys_eq_spec()
    }

    open spec fn eq_spec(&self, other: &Vec<U>) -> bool {
        elements_eq(self@, other@)
    }
}

impl<'a, T: Eq> Eq for Slice<'a, T> {

}

impl<T: Eq, const N: usize> Eq for Array<T, N> {

}

impl<T: Eq> Eq for Vec<T> {

}

} // verus!
