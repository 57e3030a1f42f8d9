//! An unsigned integer that is never zero.

use vstd::prelude::*;

verus! {

/// A `usize` that is known not to be zero.
///
/// Lengths of non-empty collections are handed out as this type, and the
/// operations that shorten a collection take their target length as this
/// type, so that no length of zero can be asked for.
#[derive(Debug, Clone, Copy, PartialEq, Eq, Structural, PartialOrd, Ord, Hash)]
pub struct NonZeroLen {
    value: usize,
}

impl View for NonZeroLen {
    type V = usize;

    closed spec fn view(&self) -> usize {
        self.value
    }
}

impl NonZeroLen {
    #[verifier::type_invariant]
    spec fn positive(&self) -> bool {
        self.value > 0
    }

    /// Returns the non-zero `n`, or `None` if `n` is zero.
    pub fn new(n: usize) -> (r: Option<Self>)
        ensures
            n == 0 ==> r is None,
            n != 0 ==> r is Some && r->0@ == n,
    {
        if n == 0 {
            None
        } else {
            Some(NonZeroLen { value: n })
        }
    }

    /// Wraps an `n` that the caller knows not to be zero.
    pub fn new_unchecked(n: usize) -> (r: Self)
        requires
            n != 0,
        ensures
            r@ == n,
    {
        if n == 0 {
            // Only a caller that was not verified can come here.
            unreached()
        } else {
            NonZeroLen { value: n }
        }
    }

    /// Returns the value as a plain integer, which is at least one.
    pub fn get(self) -> (n: usize)
        ensures
            n == self@,
            n >= 1,
    {
        proof {
            use_type_invariant(&self);
        }
        self.value
    }
}

} // verus!
