//! The fallible conversions into the non-empty types, and from a non-empty
//! sequence of any length into an array of a fixed size.

use crate::array::Array;
use crate::error::Error;
use crate::error::TryFromSliceError;
use crate::slice::BoxedSlice;
use crate::slice::Slice;
use crate::slice::SliceMut;
use crate::vec::Vec;
use vstd::prelude::*;
use vstd::std_specs::convert::TryFromSpecImpl;

verus! {

/// `<&[T; N]>::try_from(&[T])`: the slice seen as an array, if its length is
/// the size of the array. Nothing is copied.
#[verifier::external_body]
fn slice_as_array<'a, T, const N: usize>(slice: &'a [T]) -> (r: Option<&'a [T; N]>)
    ensures
        slice@.len() == N ==> r is Some && r->0@ == slice@,
        slice@.len() != N ==> r is None,
{
    <&[T; N]>::try_from(slice).ok()
}

/// `<[T; N]>::try_from(&[T])`: an array of copies of the elements of the
/// slice, if its length is the size of the array.
#[verifier::external_body]
fn slice_to_array<T: Copy, const N: usize>(slice: &[T]) -> (r: Option<[T; N]>)
    ensures
        slice@.len() == N ==> r is Some && r->0@ == slice@,
        slice@.len() != N ==> r is None,
{
    <[T; N]>::try_from(slice).ok()
}

/// `<[T; N]>::try_from(Vec<T>)`: the elements of the vector as an array, if
/// its length is the size of the array, and else the vector as it was.
#[verifier::external_body]
fn vec_to_array<T, const N: usize>(vec: std::vec::Vec<T>) -> (r: Result<[T; N], std::vec::Vec<T>>)
    ensures
        vec@.len() == N ==> r is Ok && r->Ok_0@ == vec@,
        vec@.len() != N ==> r is Err && r->Err_0 == vec,
{
    <[T; N]>::try_from(vec)
}

/// `Box::<[T; N]>::try_from(Box<[T]>)`: the boxed elements as a boxed array,
/// if there are as many as the size of the array, and else the boxed slice
/// as it was.
#[verifier::external_body]
fn boxed_slice_to_array<T, const N: usize>(boxed: Box<[T]>) -> (r: Result<Box<[T; N]>, Box<[T]>>)
    ensures
        boxed@.len() == N ==> r is Ok && r->Ok_0@ == boxed@,
        boxed@.len() != N ==> r is Err && r->Err_0 == boxed,
{
    Box::<[T; N]>::try_from(boxed)
}

impl<T, const N: usize> TryFrom<[T; N]> for Array<T, N> {
    type Error = Error;

    /// Wraps the array, unless its size is zero.
    fn try_from(value: [T; N]) -> (r: Result<Self, Error>)
        ensures
            N >= 1 ==> r is Ok && r->Ok_0@ == value@ && r->Ok_0.wf(),
            N == 0 ==> r is Err,
    {
        match Array::new(value) {
            Some(array) => Ok(array),
            None => Err(Error::new()),
        }
    }
}

impl<T, const N: usize> TryFromSpecImpl<[T; N]> for Array<T, N> {
    open spec fn obeys_try_from_spec() -> bool {
        true
    }

    open spec fn try_from_spec(value: [T; N]) -> Result<Self, Error> {
        if N == 0 {
            Err(Error::value())
        } else {
            Ok(Array::spec_new(value))
        }
    }
}

impl<'a, T> TryFrom<&'a [T]> for Slice<'a, T> {
    type Error = Error;

    /// Views the slice as non-empty, unless it holds no element.
    fn try_from(value: &'a [T]) -> (r: Result<Self, Error>)
        ensures
            value@.len() >= 1 ==> r is Ok && r->Ok_0@ == value@ && r->Ok_0.wf(),
            value@.len() == 0 ==> r is Err,
    {
        match Slice::new(value) {
            Some(slice) => Ok(slice),
            None => Err(Error::new()),
        }
    }
}

impl<'a, T> TryFromSpecImpl<&'a [T]> for Slice<'a, T> {
    open spec fn obeys_try_from_spec() -> bool {
        true
    }

    open spec fn try_from_spec(value: &'a [T]) -> Result<Self, Error> {
        if value@.len() == 0 {
            Err(Error::value())
        } else {
            Ok(Slice::spec_new(value))
        }
    }
}

impl<T> TryFrom<std::vec::Vec<T>> for Vec<T> {
    type Error = std::vec::Vec<T>;

    /// Wraps the vector, or hands it back unchanged if it holds no element.
    fn try_from(value: std::vec::Vec<T>) -> (r: Result<Self, std::vec::Vec<T>>)
        ensures
            value@.len() >= 1 ==> r is Ok && r->Ok_0@ == value@ && r->Ok_0.wf(),
            value@.len() == 0 ==> r is Err && r->Err_0 == value,
    {
        Vec::new(value)
    }
}

impl<T> TryFromSpecImpl<std::vec::Vec<T>> for Vec<T> {
    open spec fn obeys_try_from_spec() -> bool {
        true
    }

    open spec fn try_from_spec(value: std::vec::Vec<T>) -> Result<Self, std::vec::Vec<T>> {
        if value@.len() == 0 {
            Err(value)
        } else {
            Ok(Vec::spec_new(value))
        }
    }
}

impl<T> TryFrom<Box<[T]>> for BoxedSlice<T> {
    type Error = Error;

    /// Wraps the boxed slice, unless it holds no element.
    fn try_from(value: Box<[T]>) -> (r: Result<Self, Error>)
        ensures
            value@.len() >= 1 ==> r is Ok && r->Ok_0@ == value@ && r->Ok_0.wf(),
            value@.len() == 0 ==> r is Err,
    {
        match BoxedSlice::new(value) {
            Ok(boxed) => Ok(boxed),
            Err(_) => Err(Error::new()),
        }
    }
}

impl<T> TryFromSpecImpl<Box<[T]>> for BoxedSlice<T> {
    open spec fn obeys_try_from_spec() -> bool {
        true
    }

    open spec fn try_from_spec(value: Box<[T]>) -> Result<Self, Error> {
        if value@.len() == 0 {
            Err(Error::value())
        } else {
            Ok(BoxedSlice::spec_new(value))
        }
    }
}

impl<'a, T, const N: usize> TryFrom<Slice<'a, T>> for Array<T, N> where T: Copy {
    type Error = TryFromSliceError;

    /// Copies the elements of the view into an array, if there are exactly
    /// `N` of them.
    fn try_from(value: Slice<'a, T>) -> (r: Result<Self, TryFromSliceError>)
        ensures
            value@.len() == N ==> r is Ok && r->Ok_0@ == value@,
            value@.len() != N ==> r is Err,
            r is Ok && value.wf() ==> r->Ok_0.wf(),
    {
        match slice_to_array(value.as_slice()) {
            Some(array) => Ok(Array::wrap(array)),
            None => Err(TryFromSliceError::new()),
        }
    }
}

impl<'a, T, const N: usize> TryFromSpecImpl<Slice<'a, T>> for Array<T, N> where T: Copy {
    /// The copy is a new array, which no function of its source names.
    open spec fn obeys_try_from_spec() -> bool {
        false
    }

    open spec fn try_from_spec(value: Slice<'a, T>) -> Result<Self, TryFromSliceError> {
        Err(TryFromSliceError::value())
    }
}

impl<T, const N: usize> TryFrom<Vec<T>> for Array<T, N> {
    type Error = Vec<T>;

    /// Moves the elements of the vector into an array, if there are exactly
    /// `N` of them, and else hands the vector back unchanged.
    fn try_from(value: Vec<T>) -> (r: Result<Self, Vec<T>>)
        ensures
            value@.len() == N ==> r is Ok && r->Ok_0@ == value@,
            value@.len() != N ==> r is Err && r->Err_0 == value,
            r is Ok && value.wf() ==> r->Ok_0.wf(),
    {
        let ghost given = value;
        match vec_to_array(value.into_vec()) {
            Ok(array) => Ok(Array::wrap(array)),
            Err(vec) => {
                let back = Vec::wrap(vec);
                proof {
                    Vec::lemma_spec_new_inner(given);
                }
                Err(back)
            },
        }
    }
}

impl<T, const N: usize> TryFromSpecImpl<Vec<T>> for Array<T, N> {
    /// The array is a new value, which no function of its source names.
    open spec fn obeys_try_from_spec() -> bool {
        false
    }

    open spec fn try_from_spec(value: Vec<T>) -> Result<Self, Vec<T>> {
        Err(value)
    }
}

impl<'a, T, const N: usize> TryFrom<Slice<'a, T>> for &'a [T; N] {
    type Error = TryFromSliceError;

    /// Sees the elements of the view as an array, if there are exactly `N`
    /// of them. Nothing is copied: the array is the memory that the view
    /// borrows.
    fn try_from(value: Slice<'a, T>) -> (r: Result<Self, TryFromSliceError>)
        ensures
            value@.len() == N ==> r is Ok && r->Ok_0@ == value@,
            value@.len() != N ==> r is Err,
    {
        match slice_as_array(value.as_slice()) {
            Some(array) => Ok(array),
            None => Err(TryFromSliceError::new()),
        }
    }
}

impl<'a, T, const N: usize> TryFromSpecImpl<Slice<'a, T>> for &'a [T; N] {
    /// The array is the borrowed memory under another type, which no
    /// function of the view names.
    open spec fn obeys_try_from_spec() -> bool {
        false
    }

    open spec fn try_from_spec(value: Slice<'a, T>) -> Result<Self, TryFromSliceError> {
        Err(TryFromSliceError::value())
    }
}

impl<'a, T> TryFrom<&'a mut [T]> for SliceMut<'a, T> {
    type Error = Error;

    /// Views the slice as non-empty and open to changes, unless it holds no
    /// element.
    fn try_from(value: &'a mut [T]) -> (r: Result<Self, Error>)
        ensures
            old(value)@.len() >= 1 ==> r is Ok && r->Ok_0@ == old(value)@ && r->Ok_0.wf()
                && final(value)@ == final(r->Ok_0.target())@,
            old(value)@.len() == 0 ==> r is Err && final(value)@ == old(value)@,
    {
        match Slice::new_mut(value) {
            Some(slice) => Ok(slice),
            None => Err(Error::new()),
        }
    }
}

impl<'a, T> TryFromSpecImpl<&'a mut [T]> for SliceMut<'a, T> {
    /// The view holds the reference that it was given, with what will be
    /// written through it, which no function of the value before names.
    open spec fn obeys_try_from_spec() -> bool {
        false
    }

    open spec fn try_from_spec(value: &'a mut [T]) -> Result<Self, Error> {
        Err(Error::value())
    }
}

impl<T, const N: usize> TryFrom<BoxedSlice<T>> for Box<Array<T, N>> {
    type Error = BoxedSlice<T>;

    /// Moves the boxed elements into a boxed array, if there are exactly `N`
    /// of them, and else hands the boxed slice back unchanged.
    fn try_from(value: BoxedSlice<T>) -> (r: Result<Self, BoxedSlice<T>>)
        ensures
            value@.len() == N ==> r is Ok && r->Ok_0@ == value@,
            value@.len() != N ==> r is Err && r->Err_0 == value,
            r is Ok && value.wf() ==> r->Ok_0.wf(),
    {
        let ghost given = value;
        match boxed_slice_to_array(value.into_boxed_slice()) {
            Ok(array) => Ok(Box::new(Array::wrap(*array))),
            Err(boxed) => {
                let back = BoxedSlice::wrap(boxed);
                proof {
                    BoxedSlice::lemma_spec_new_inner(given);
                }
                Err(back)
            },
        }
    }
}

impl<T, const N: usize> TryFromSpecImpl<BoxedSlice<T>> for Box<Array<T, N>> {
    /// The boxed array is a new value, which no function of its source
    /// names.
    open spec fn obeys_try_from_spec() -> bool {
        false
    }

    open spec fn try_from_spec(value: BoxedSlice<T>) -> Result<Self, BoxedSlice<T>> {
        Err(value)
    }
}

impl<T, const N: usize> TryFrom<Vec<T>> for Box<Array<T, N>> {
    type Error = Vec<T>;

    /// Moves the elements of the vector into a boxed array, if there are
    /// exactly `N` of them, and else hands the vector back unchanged.
    fn try_from(value: Vec<T>) -> (r: Result<Self, Vec<T>>)
        ensures
            value@.len() == N ==> r is Ok && r->Ok_0@ == value@,
            value@.len() != N ==> r is Err && r->Err_0 == value,
            r is Ok && value.wf() ==> r->Ok_0.wf(),
    {
        if value.len() == N {
            match boxed_slice_to_array(crate::slice::vec_into_boxed_slice(value.into_vec())) {
                Ok(array) => Ok(Box::new(Array::wrap(*array))),
                Err(boxed) => Err(Vec::wrap(boxed.into_vec())),
            }
        } else {
            Err(value)
        }
    }
}

impl<T, const N: usize> TryFromSpecImpl<Vec<T>> for Box<Array<T, N>> {
    /// The boxed array is a new value, which no function of its source
    /// names.
    open spec fn obeys_try_from_spec() -> bool {
        false
    }

    open spec fn try_from_spec(value: Vec<T>) -> Result<Self, Vec<T>> {
        Err(value)
    }
}

} // verus!
