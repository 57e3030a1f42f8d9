//! Ordering between the non-empty types and the raw sequences.
//!
//! Sequences are ordered lexicographically. A non-empty view, array or
//! vector is ordered against another of its own type, and, in both
//! directions, against a slice, an array and a vector of the standard
//! library.

use crate::array::Array;
use crate::sequence::cmp_slices;
use crate::sequence::lex_cmp;
use crate::sequence::lex_partial_cmp;
use crate::sequence::partial_cmp_slices;
use crate::slice::Slice;
use crate::vec::Vec;
use core::cmp::Ordering;
use vstd::prelude::*;
use vstd::std_specs::cmp::OrdSpec;
use vstd::std_specs::cmp::PartialOrdSpec;
use vstd::std_specs::cmp::PartialOrdSpecImpl;

verus! {

impl<'a, 'b, T: PartialOrd> PartialOrd<Slice<'b, T>> for Slice<'a, T> {
    /// Orders the two sequences lexicographically.
    fn partial_cmp(&self, other: &Slice<'b, T>) -> (r: Option<Ordering>)
    {
        partial_cmp_slices(self.as_slice(), other.as_slice())
    }
}

impl<'a, 'b, T: PartialOrd> PartialOrdSpecImpl<Slice<'b, T>> for Slice<'a, T> {
    open spec fn obeys_partial_cmp_spec() -> bool {
        T::obeys_partial_cmp_spec()
    }

    open spec fn partial_cmp_spec(&self, other: &Slice<'b, T>) -> Option<Ordering> {
        lex_partial_cmp(self@, other@)
    }
}

impl<'a, T: PartialOrd> PartialOrd<[T]> for Slice<'a, T> {
    /// Orders the two sequences lexicographically.
    fn partial_cmp(&self, other: &[T]) -> (r: Option<Ordering>)
    {
        partial_cmp_slices(self.as_slice(), other)
    }
}

impl<'a, T: PartialOrd> PartialOrdSpecImpl<[T]> for Slice<'a, T> {
    open spec fn obeys_partial_cmp_spec() -> bool {
        T::obeys_partial_cmp_spec()
    }

    open spec fn partial_cmp_spec(&self, other: &[T]) -> Option<Ordering> {
        lex_partial_cmp(self@, other@)
    }
}

impl<'a, T: PartialOrd, const N: usize> PartialOrd<[T; N]> for Slice<'a, T> {
    /// Orders the two sequences lexicographically.
    fn partial_cmp(&self, other: &[T; N]) -> (r: Option<Ordering>)
    {
        partial_cmp_slices(self.as_slice(), other.as_slice())
    }
}

impl<'a, T: PartialOrd, const N: usize> PartialOrdSpecImpl<[T; N]> for Slice<'a, T> {
    open spec fn obeys_partial_cmp_spec() -> bool {
        T::obeys_partial_cmp_spec()
    }

    open spec fn partial_cmp_spec(&self, other: &[T; N]) -> Option<Ordering> {
        lex_partial_cmp(self@, other@)
    }
}

impl<'a, T: PartialOrd> PartialOrd<std::vec::Vec<T>> for Slice<'a, T> {
    /// Orders the two sequences lexicographically.
    fn partial_cmp(&self, other: &std::vec::Vec<T>) -> (r: Option<Ordering>)
    {
        partial_cmp_slices(self.as_slice(), other.as_slice())
    }
}

impl<'a, T: PartialOrd> PartialOrdSpecImpl<std::vec::Vec<T>> for Slice<'a, T> {
    open spec fn obeys_partial_cmp_spec() -> bool {
        T::obeys_partial_cmp_spec()
    }

    open spec fn partial_cmp_spec(&self, other: &std::vec::Vec<T>) -> Option<Ordering> {
        lex_partial_cmp(self@, other@)
    }
}

impl<T: PartialOrd, const N: usize> PartialOrd<Array<T, N>> for Array<T, N> {
    /// Orders the two sequences lexicographically.
    fn partial_cmp(&self, other: &Array<T, N>) -> (r: Option<Ordering>)
    {
        partial_cmp_slices(self.as_slice(), other.as_slice())
    }
}

impl<T: PartialOrd, const N: usize> PartialOrdSpecImpl<Array<T, N>> for Array<T, N> {
    open spec fn obeys_partial_cmp_spec() -> bool {
        T::obeys_partial_cmp_spec()
    }

    open spec fn partial_cmp_spec(&self, other: &Array<T, N>) -> Option<Ordering> {
        lex_partial_cmp(self@, other@)
    }
}

impl<T: PartialOrd, const N: usize> PartialOrd<[T]> for Array<T, N> {
    /// Orders the two sequences lexicographically.
    fn partial_cmp(&self, other: &[T]) -> (r: Option<Ordering>)
    {
        partial_cmp_slices(self.as_slice(), other)
    }
}

impl<T: PartialOrd, const N: usize> PartialOrdSpecImpl<[T]> for Array<T, N> {
    open spec fn obeys_partial_cmp_spec() -> bool {
        T::obeys_partial_cmp_spec()
    }

    open spec fn partial_cmp_spec(&self, other: &[T]) -> Option<Ordering> {
        lex_partial_cmp(self@, other@)
    }
}

impl<T: PartialOrd, const N: usize> PartialOrd<[T; N]> for Array<T, N> {
    /// Orders the two sequences lexicographically.
    fn partial_cmp(&self, other: &[T; N]) -> (r: Option<Ordering>)
    {
        partial_cmp_slices(self.as_slice(), other.as_slice())
    }
}

impl<T: PartialOrd, const N: usize> PartialOrdSpecImpl<[T; N]> for Array<T, N> {
    open spec fn obeys_partial_cmp_spec() -> bool {
        T::obeys_partial_cmp_spec()
    }

    open spec fn partial_cmp_spec(&self, other: &[T; N]) -> Option<Ordering> {
        lex_partial_cmp(self@, other@)
    }
}

impl<T: PartialOrd, const N: usize> PartialOrd<std::vec::Vec<T>> for Array<T, N> {
    /// Orders the two sequences lexicographically.
    fn partial_cmp(&self, other: &std::vec::Vec<T>) -> (r: Option<Ordering>)
    {
        partial_cmp_slices(self.as_slice(), other.as_slice())
    }
}

impl<T: PartialOrd, const N: usize> PartialOrdSpecImpl<std::vec::Vec<T>> for Array<T, N> {
    open spec fn obeys_partial_cmp_spec() -> bool {
        T::obeys_partial_cmp_spec()
    }

    open spec fn partial_cmp_spec(&self, other: &std::vec::Vec<T>) -> Option<Ordering> {
        lex_partial_cmp(self@, other@)
    }
}

impl<T: PartialOrd> PartialOrd<Vec<T>> for Vec<T> {
    /// Orders the two sequences lexicographically.
    fn partial_cmp(&self, other: &Vec<T>) -> (r: Option<Ordering>)
    {
        partial_cmp_slices(self.as_slice(), other.as_slice())
    }
}

impl<T: PartialOrd> PartialOrdSpecImpl<Vec<T>> for Vec<T> {
    open spec fn obeys_partial_cmp_spec() -> bool {
        T::obeys_partial_cmp_spec()
    }

    open spec fn partial_cmp_spec(&self, other: &Vec<T>) -> Option<Ordering> {
        lex_partial_cmp(self@, other@)
    }
}

impl<T: PartialOrd> PartialOrd<[T]> for Vec<T> {
    /// Orders the two sequences lexicographically.
    fn partial_cmp(&self, other: &[T]) -> (r: Option<Ordering>)
    {
        partial_cmp_slices(self.as_slice(), other)
    }
}

impl<T: PartialOrd> PartialOrdSpecImpl<[T]> for Vec<T> {
    open spec fn obeys_partial_cmp_spec() -> bool {
        T::obeys_partial_cmp_spec()
    }

    open spec fn partial_cmp_spec(&self, other: &[T]) -> Option<Ordering> {
        lex_partial_cmp(self@, other@)
    }
}

impl<T: PartialOrd, const N: usize> PartialOrd<[T; N]> for Vec<T> {
    /// Orders the two sequences lexicographically.
    fn partial_cmp(&self, other: &[T; N]) -> (r: Option<Ordering>)
    {
        partial_cmp_slices(self.as_slice(), other.as_slice())
    }
}

impl<T: PartialOrd, const N: usize> PartialOrdSpecImpl<[T; N]> for Vec<T> {
    open spec fn obeys_partial_cmp_spec() -> bool {
        T::obeys_partial_cmp_spec()
    }

    open spec fn partial_cmp_spec(&self, other: &[T; N]) -> Option<Ordering> {
        lex_partial_cmp(self@, other@)
    }
}

impl<T: PartialOrd> PartialOrd<std::vec::Vec<T>> for Vec<T> {
    /// Orders the two sequences lexicographically.
    fn partial_cmp(&self, other: &std::vec::Vec<T>) -> (r: Option<Ordering>)
    {
        partial_cmp_slices(self.as_slice(), other.as_slice())
    }
}

impl<T: PartialOrd> PartialOrdSpecImpl<std::vec::Vec<T>> for Vec<T> {
    open spec fn obeys_partial_cmp_spec() -> bool {
        T::obeys_partial_cmp_spec()
    }

    open spec fn partial_cmp_spec(&self, other: &std::vec::Vec<T>) -> Option<Ordering> {
        lex_partial_cmp(self@, other@)
    }
}

impl<'b, T: PartialOrd> PartialOrd<Slice<'b, T>> for [T] {
    /// Orders the two sequences lexicographically.
    fn partial_cmp(&self, other: &Slice<'b, T>) -> (r: Option<Ordering>)
    {
        partial_cmp_slices(self, other.as_slice())
    }
}

impl<'b, T: PartialOrd> PartialOrdSpecImpl<Slice<'b, T>> for [T] {
    open spec fn obeys_partial_cmp_spec() -> bool {
        T::obeys_partial_cmp_spec()
    }

    open spec fn partial_cmp_spec(&self, other: &Slice<'b, T>) -> Option<Ordering> {
        lex_partial_cmp(self@, other@)
    }
}

impl<T: PartialOrd, const N: usize> PartialOrd<Array<T, N>> for [T] {
    /// Orders the two sequences lexicographically.
    fn partial_cmp(&self, other: &Array<T, N>) -> (r: Option<Ordering>)
    {
        partial_cmp_slices(self, other.as_slice())
    }
}

impl<T: PartialOrd, const N: usize> PartialOrdSpecImpl<Array<T, N>> for [T] {
    open spec fn obeys_partial_cmp_spec() -> bool {
        T::obeys_partial_cmp_spec()
    }

    open spec fn partial_cmp_spec(&self, other: &Array<T, N>) -> Option<Ordering> {
        lex_partial_cmp(self@, other@)
    }
}

impl<T: PartialOrd> PartialOrd<Vec<T>> for [T] {
    /// Orders the two sequences lexicographically.
    fn partial_cmp(&self, other: &Vec<T>) -> (r: Option<Ordering>)
    {
        partial_cmp_slices(self, other.as_slice())
    }
}

impl<T: PartialOrd> PartialOrdSpecImpl<Vec<T>> for [T] {
    open spec fn obeys_partial_cmp_spec() -> bool {
        T::obeys_partial_cmp_spec()
    }

    open spec fn partial_cmp_spec(&self, other: &Vec<T>) -> Option<Ordering> {
        lex_partial_cmp(self@, other@)
    }
}

impl<'b, T: PartialOrd, const N: usize> PartialOrd<Slice<'b, T>> for [T; N] {
    /// Orders the two sequences lexicographically.
    fn partial_cmp(&self, other: &Slice<'b, T>) -> (r: Option<Ordering>)
    {
        partial_cmp_slices(self.as_slice(), other.as_slice())
    }
}

impl<'b, T: PartialOrd, const N: usize> PartialOrdSpecImpl<Slice<'b, T>> for [T; N] {
    open spec fn obeys_partial_cmp_spec() -> bool {
        T::obeys_partial_cmp_spec()
    }

    open spec fn partial_cmp_spec(&self, other: &Slice<'b, T>) -> Option<Ordering> {
        lex_partial_cmp(self@, other@)
    }
}

impl<T: PartialOrd, const N: usize> PartialOrd<Array<T, N>> for [T; N] {
    /// Orders the two sequences lexicographically.
    fn partial_cmp(&self, other: &Array<T, N>) -> (r: Option<Ordering>)
    {
        partial_cmp_slices(self.as_slice(), other.as_slice())
    }
}

impl<T: PartialOrd, const N: usize> PartialOrdSpecImpl<Array<T, N>> for [T; N] {
    open spec fn obeys_partial_cmp_spec() -> bool {
        T::obeys_partial_cmp_spec()
    }

    open spec fn partial_cmp_spec(&self, other: &Array<T, N>) -> Option<Ordering> {
        lex_partial_cmp(self@, other@)
    }
}

impl<T: PartialOrd, const N: usize> PartialOrd<Vec<T>> for [T; N] {
    /// Orders the two sequences lexicographically.
    fn partial_cmp(&self, other: &Vec<T>) -> (r: Option<Ordering>)
    {
        partial_cmp_slices(self.as_slice(), other.as_slice())
    }
}

impl<T: PartialOrd, const N: usize> PartialOrdSpecImpl<Vec<T>> for [T; N] {
    open spec fn obeys_partial_cmp_spec() -> bool {
        T::obeys_partial_cmp_spec()
    }

    open spec fn partial_cmp_spec(&self, other: &Vec<T>) -> Option<Ordering> {
        lex_partial_cmp(self@, other@)
    }
}

impl<'b, T: PartialOrd> PartialOrd<Slice<'b, T>> for std::vec::Vec<T> {
    /// Orders the two sequences lexicographically.
    fn partial_cmp(&self, other: &Slice<'b, T>) -> (r: Option<Ordering>)
    {
        partial_cmp_slices(self.as_slice(), other.as_slice())
    }
}

impl<'b, T: PartialOrd> PartialOrdSpecImpl<Slice<'b, T>> for std::vec::Vec<T> {
    open spec fn obeys_partial_cmp_spec() -> bool {
        T::obeys_partial_cmp_spec()
    }

    open spec fn partial_cmp_spec(&self, other: &Slice<'b, T>) -> Option<Ordering> {
        lex_partial_cmp(self@, other@)
    }
}

impl<T: PartialOrd, const N: usize> PartialOrd<Array<T, N>> for std::vec::Vec<T> {
    /// Orders the two sequences lexicographically.
    fn partial_cmp(&self, other: &Array<T, N>) -> (r: Option<Ordering>)
    {
        partial_cmp_slices(self.as_slice(), other.as_slice())
    }
}

impl<T: PartialOrd, const N: usize> PartialOrdSpecImpl<Array<T, N>> for std::vec::Vec<T> {
    open spec fn obeys_partial_cmp_spec() -> bool {
        T::obeys_partial_cmp_spec()
    }

    open spec fn partial_cmp_spec(&self, other: &Array<T, N>) -> Option<Ordering> {
        lex_partial_cmp(self@, other@)
    }
}

impl<T: PartialOrd> PartialOrd<Vec<T>> for std::vec::Vec<T> {
    /// Orders the two sequences lexicographically.
    fn partial_cmp(&self, other: &Vec<T>) -> (r: Option<Ordering>)
    {
        partial_cmp_slices(self.as_slice(), other.as_slice())
    }
}

impl<T: PartialOrd> PartialOrdSpecImpl<Vec<T>> for std::vec::Vec<T> {
    open spec fn obeys_partial_cmp_spec() -> bool {
        T::obeys_partial_cmp_spec()
    }

    open spec fn partial_cmp_spec(&self, other: &Vec<T>) -> Option<Ordering> {
        lex_partial_cmp(self@, other@)
    }
}

impl<'a, T: Ord> Slice<'a, T> {
    /// Compares this view with `other` in the lexicographic total order.
    pub fn cmp(&self, other: &Self) -> (r: Ordering)
        ensures
            T::obeys_cmp_spec() ==> r == lex_cmp(self@, other@),
    {
        cmp_slices(self.as_slice(), other.as_slice())
    }
}

impl<T: Ord, const N: usize> Array<T, N> {
    /// Compares this array with `other` in the lexicographic total order.
    pub fn cmp(&self, other: &Self) -> (r: Ordering)
        ensures
            T::obeys_cmp_spec() ==> r == lex_cmp(self@, other@),
    {
        cmp_slices(self.as_slice(), other.as_slice())
    }
}

impl<T: Ord> Vec<T> {
    /// Compares this vector with `other` in the lexicographic total order.
    pub fn cmp(&self, other: &Self) -> (r: Ordering)
        ensures
            T::obeys_cmp_spec() ==> r == lex_cmp(self@, other@),
    {
        cmp_slices(self.as_slice(), other.as_slice())
    }
}

} // verus!
