//! Non-empty slices, arrays and vectors.
//!
//! Every type of this crate wraps one of the standard sequence shapes and
//! guarantees that it holds at least one element:
//!
//! - [`Array`] owns a fixed-size array,
//! - [`Slice`] and [`SliceMut`] are shared and exclusive views of a borrowed
//!   sequence,
//! - [`Vec`] owns a growable, heap-allocated vector,
//! - [`BoxedSlice`] owns a heap-allocated sequence of a fixed length,
//! - [`NonEmpty`] wraps an iterator that yields at least one item.
//!
//! The guarantee is the predicate `wf()` of each type. Every constructor
//! establishes it, every method keeps it, and accessors such as `first` and
//! `last` rely on it to hand out an element where the standard library hands
//! out an `Option`. Lengths that cannot be zero travel as [`NonZeroLen`].
//!
//! A constructor that checks hands its input back when it rejects it. A
//! constructor that does not check (`new_unchecked`) has the guarantee as its
//! precondition; called against it by code that was not verified, it stops
//! the program instead of building an empty value.
//!
//! Contracts are stated over the view of each value, the sequence of its
//! elements. Equality and ordering between the non-empty types and the raw
//! sequences are those of the underlying sequences ([`sequence`]), and the
//! conversions that the standard library has between arrays, slices and
//! vectors exist for the non-empty types ([`mirror_std`]). What holds of the
//! types as a whole is proved in [`laws`].

pub mod adaptors;
pub mod array;
pub mod error;
pub mod fold;
pub mod iter;
pub mod laws;
pub mod mirror_std;
pub mod nonzero;
pub mod sequence;
pub mod slice;
pub mod vec;

pub use crate::array::Array;
pub use crate::error::Error;
pub use crate::error::TryFromSliceError;
pub use crate::iter::NonEmpty;
pub use crate::nonzero::NonZeroLen;
pub use crate::slice::BoxedSlice;
pub use crate::slice::Slice;
pub use crate::slice::SliceMut;
pub use crate::vec::Vec;
