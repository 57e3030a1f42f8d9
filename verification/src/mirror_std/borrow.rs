//! The non-empty types can be borrowed as the slice of their elements.

use crate::array::Array;
use crate::slice::BoxedSlice;
use crate::slice::Slice;
use crate::slice::SliceMut;
use crate::vec::Vec;
use core::borrow::Borrow;
use core::borrow::BorrowMut;
use vstd::prelude::*;

verus! {

impl<'a, T> AsRef<[T]> for Slice<'a, T> {
    /// Returns the elements.
    fn as_ref(&self) -> (r: &[T])
        ensures
            r@ == self@,
    {
        self.as_slice()
    }
}

impl<'a, T> AsRef<[T]> for SliceMut<'a, T> {
    /// Returns the elements.
    fn as_ref(&self) -> (r: &[T])
        ensures
            r@ == self@,
    {
        self.as_slice()
    }
}

impl<'a, T> AsMut<[T]> for SliceMut<'a, T> {
    /// Returns the elements, open to changes.
    fn as_mut(&mut self) -> (r: &mut [T])
        ensures
            r@ == old(self)@,
            final(self)@ == final(r)@,
            final(final(self).target())@ == final(old(self).target())@,
    {
        self.as_mut_slice()
    }
}

impl<T, const N: usize> AsRef<[T]> for Array<T, N> {
    /// Returns the elements.
    fn as_ref(&self) -> (r: &[T])
        ensures
            r@ == self@,
    {
        self.as_slice()
    }
}

impl<T, const N: usize> AsMut<[T]> for Array<T, N> {
    /// Returns the elements, open to changes.
    fn as_mut(&mut self) -> (r: &mut [T])
        ensures
            r@ == old(self)@,
            final(self)@ == final(r)@,
    {
        let array: &mut [T; N] = self.as_mut_array();
        array
    }
}

impl<T> AsRef<[T]> for Vec<T> {
    /// Returns the elements.
    fn as_ref(&self) -> (r: &[T])
        ensures
            r@ == self@,
    {
        self.as_slice()
    }
}

impl<T> AsMut<[T]> for Vec<T> {
    /// Returns the elements, open to changes.
    fn as_mut(&mut self) -> (r: &mut [T])
        ensures
            r@ == old(self)@,
            final(self)@ == final(r)@,
    {
        self.as_mut_vec().as_mut_slice()
    }
}

impl<T> AsRef<[T]> for BoxedSlice<T> {
    /// Returns the elements.
    fn as_ref(&self) -> (r: &[T])
        ensures
            r@ == self@,
    {
        self.as_slice()
    }
}

impl<'a, T> Borrow<[T]> for Slice<'a, T> {
    /// Returns the elements.
    fn borrow(&self) -> (r: &[T])
        ensures
            same_elements(r, self@),
    {
        self.as_slice()
    }
}

impl<'a, T> Borrow<[T]> for SliceMut<'a, T> {
    /// Returns the elements.
    fn borrow(&self) -> (r: &[T])
        ensures
            same_elements(r, self@),
    {
        self.as_slice()
    }
}

impl<T, const N: usize> Borrow<[T]> for Array<T, N> {
    /// Returns the elements.
    fn borrow(&self) -> (r: &[T])
        ensures
            same_elements(r, self@),
    {
        self.as_slice()
    }
}

impl<T> Borrow<[T]> for Vec<T> {
    /// Returns the elements.
    fn borrow(&self) -> (r: &[T])
        ensures
            same_elements(r, self@),
    {
        self.as_slice()
    }
}

impl<T> Borrow<[T]> for BoxedSlice<T> {
    /// Returns the elements.
    fn borrow(&self) -> (r: &[T])
        ensures
            same_elements(r, self@),
    {
        self.as_slice()
    }
}

impl<'a, T> BorrowMut<[T]> for SliceMut<'a, T> {
    /// Returns the elements, open to changes.
    fn borrow_mut(&mut self) -> (r: &mut [T])
        ensures
            same_elements(r, old(self)@),
            same_elements(final(r), final(self)@),
            final(final(self).target())@ == final(old(self).target())@,
    {
        self.as_mut_slice()
    }
}

impl<T, const N: usize> BorrowMut<[T]> for Array<T, N> {
    /// Returns the elements, open to changes.
    fn borrow_mut(&mut self) -> (r: &mut [T])
        ensures
            same_elements(r, old(self)@),
            same_elements(final(r), final(self)@),
    {
        let array: &mut [T; N] = self.as_mut_array();
        array
    }
}

impl<T> BorrowMut<[T]> for Vec<T> {
    /// Returns the elements, open to changes.
    fn borrow_mut(&mut self) -> (r: &mut [T])
        ensures
            same_elements(r, old(self)@),
            same_elements(final(r), final(self)@),
    {
        self.as_mut_vec().as_mut_slice()
    }
}

/// The slice holds the elements `elements`.
pub open spec fn same_elements<T>(slice: &[T], elements: Seq<T>) -> bool {
    slice@ == elements
}

} // verus!
