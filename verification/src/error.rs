//! The two errors of the fallible conversions.

use vstd::prelude::*;
use vstd::std_specs::cmp::PartialEqSpecImpl;
use vstd::std_specs::convert::FromSpecImpl;

verus! {

/// A collection was empty where at least one element is needed.
///
/// The error carries no data: all values of it are equal.
#[derive(Debug, Clone, Copy, Eq, PartialOrd, Ord, Hash)]
pub struct Error(());

impl PartialEq for Error {
    fn eq(&self, other: &Self) -> (r: bool)
    {
        true
    }
}

impl PartialEqSpecImpl for Error {
    open spec fn obeys_eq_spec() -> bool {
        true
    }

    open spec fn eq_spec(&self, other: &Self) -> bool {
        true
    }
}

impl Error {
    /// The one value of this error.
    pub closed spec fn value() -> Self {
        Error(())
    }

    /// The one value of this error.
    pub(crate) fn new() -> (e: Self)
        ensures
            e == Self::value(),
    {
        Error(())
    }

    /// The fixed text of this error.
    pub fn message(&self) -> (text: &'static str)
        ensures
            text@ == "collection was empty"@,
    {
        "collection was empty"
    }

    /// The text of this error as an owned string.
    pub fn to_string(&self) -> (text: String)
        ensures
            text@ == "collection was empty"@,
    {
        self.message().to_owned()
    }
}

/// A borrowed sequence could not be converted into an array of a fixed size,
/// because its length is not that size.
#[derive(Debug, Clone, Copy)]
pub struct TryFromSliceError(());

impl From<core::convert::Infallible> for TryFromSliceError {
    /// The source type has no value, so there is never one to convert.
    fn from(value: core::convert::Infallible) -> (e: Self)
    {
        TryFromSliceError(())
    }
}

impl FromSpecImpl<core::convert::Infallible> for TryFromSliceError {
    open spec fn obeys_from_spec() -> bool {
        true
    }

    open spec fn from_spec(value: core::convert::Infallible) -> Self {
        Self::value()
    }
}

impl TryFromSliceError {
    /// The one value of this error.
    pub closed spec fn value() -> Self {
        TryFromSliceError(())
    }

    /// The one value of this error.
    pub(crate) fn new() -> (e: Self)
        ensures
            e == Self::value(),
    {
        TryFromSliceError(())
    }

    /// The fixed text of this error.
    pub fn message(&self) -> (text: &'static str)
        ensures
            text@ == "could not convert slice to array"@,
    {
        "could not convert slice to array"
    }

    /// The text of this error as an owned string.
    pub fn to_string(&self) -> (text: String)
        ensures
            text@ == "could not convert slice to array"@,
    {
        self.message().to_owned()
    }
}

} // verus!
