//! The comparisons and conversions that the standard library has between
//! arrays, slices, vectors and its other collections, for the non-empty
//! types.

pub mod borrow;
pub mod cmp;
pub mod collections;
pub mod deref;
pub mod from;
pub mod partial_eq;
pub mod try_from;
pub mod vec_deque;
