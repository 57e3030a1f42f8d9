//! Every non-empty type dereferences to the slice of its elements, so that
//! the read-only methods of slices, and those that replace elements, are at
//! hand. None of them changes the length.

use crate::array::Array;
use crate::slice::BoxedSlice;
use crate::slice::Slice;
use crate::slice::SliceMut;
use crate::vec::Vec;
use core::ops::Deref;
use core::ops::DerefMut;
use vstd::prelude::*;

verus! {

impl<'a, T> Deref for Slice<'a, T> {
    type Target = [T];

    /// Returns the elements.
    fn deref(&self) -> (r: &[T])
        ensures
            r@ == self@,
    {
        self.as_slice()
    }
}

impl<'a, T> Deref for SliceMut<'a, T> {
    type Target = [T];

    /// Returns the elements.
    fn deref(&self) -> (r: &[T])
        ensures
            r@ == self@,
    {
        self.as_slice()
    }
}

impl<'a, T> DerefMut for SliceMut<'a, T> {
    /// Returns the elements, open to changes.
    fn deref_mut(&mut self) -> (r: &mut [T])
        ensures
            r@ == old(self)@,
            final(self)@ == final(r)@,
            final(final(self).target())@ == final(old(self).target())@,
    {
        self.as_mut_slice()
    }
}

impl<T, const N: usize> Deref for Array<T, N> {
    type Target = [T];

    /// Returns the elements.
    fn deref(&self) -> (r: &[T])
        ensures
            r@ == self@,
    {
        self.as_slice()
    }
}

impl<T, const N: usize> DerefMut for Array<T, N> {
    /// Returns the elements, open to changes.
    fn deref_mut(&mut self) -> (r: &mut [T])
        ensures
            r@ == old(self)@,
            final(self)@ == final(r)@,
    {
        let array: &mut [T; N] = self.as_mut_array();
        array
    }
}

impl<T> Deref for Vec<T> {
    type Target = [T];

    /// Returns the elements.
    fn deref(&self) -> (r: &[T])
        ensures
            r@ == self@,
    {
        self.as_slice()
    }
}

impl<T> DerefMut for Vec<T> {
    /// Returns the elements, open to changes.
    fn deref_mut(&mut self) -> (r: &mut [T])
        ensures
            r@ == old(self)@,
            final(self)@ == final(r)@,
    {
        self.as_mut_vec().as_mut_slice()
    }
}

impl<T> Deref for BoxedSlice<T> {
    type Target = [T];

    /// Returns the elements.
    fn deref(&self) -> (r: &[T])
        ensures
            r@ == self@,
    {
        self.as_slice()
    }
}

} // verus!
