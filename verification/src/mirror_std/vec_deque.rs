//! Equality between a double-ended queue of the standard library and the
//! non-empty types.

use crate::array::Array;
use crate::sequence::elements_eq;
use crate::sequence::eq_slices;
use crate::slice::Slice;
use crate::vec::Vec;
use std::collections::VecDeque;
use vstd::prelude::*;
use vstd::std_specs::cmp::PartialEqSpec;
use vstd::std_specs::cmp::PartialEqSpecImpl;

verus! {

/// `VecDeque::as_slices`: two slices that hold, one after the other, the
/// elements of the queue in order.
#[verifier::external_body]
fn deque_as_slices<T>(deque: &VecDeque<T>) -> (r: (&[T], &[T]))
    ensures
        r.0@ + r.1@ == deque@,
{
    deque.as_slices()
}

/// Two sequences that are each cut in two at the same index are equal
/// exactly if both pairs of parts are.
proof fn lemma_elements_eq_of_parts<T: PartialEq<U>, U>(
    a1: Seq<T>,
    a2: Seq<T>,
    b1: Seq<U>,
    b2: Seq<U>,
)
    requires
        a1.len() == b1.len(),
    ensures
        elements_eq(a1 + a2, b1 + b2) == (elements_eq(a1, b1) && elements_eq(a2, b2)),
{
    let a = a1 + a2;
    let b = b1 + b2;
    if elements_eq(a, b) {
        assert forall|i: int| 0 <= i < a1.len() implies (#[trigger] a1[i]).eq_spec(&b1[i]) by {
            assert(a[i].eq_spec(&b[i]));
        }
        assert forall|i: int| 0 <= i < a2.len() implies (#[trigger] a2[i]).eq_spec(&b2[i]) by {
            assert(a[a1.len() + i].eq_spec(&b[a1.len() + i]));
        }
    }
    if elements_eq(a1, b1) && elements_eq(a2, b2) {
        assert forall|i: int| 0 <= i < a.len() implies (#[trigger] a[i]).eq_spec(&b[i]) by {
            if i < a1.len() {
                assert(a1[i].eq_spec(&b1[i]));
            } else {
                assert(a2[i - a1.len()].eq_spec(&b2[i - a1.len()]));
            }
        }
    }
}

/// Compares a queue and a slice for equality, element by element.
///
/// The queue lies in memory as two slices. The slice is cut where the first
/// of them ends, and the parts are compared pair by pair.
pub fn eq_deque_slice<T: PartialEq<U>, U>(deque: &VecDeque<T>, other: &[U]) -> (r: bool)
    ensures
        T::obeys_eq_spec() ==> r == elements_eq(deque@, other@),
{
    if deque.len() != other.len() {
        return false;
    }
    let (front, back) = deque_as_slices(deque);
    let (other_front, other_back) = other.split_at(front.len());
    proof {
        assert(other@ =~= other_front@ + other_back@);
        lemma_elements_eq_of_parts(front@, back@, other_front@, other_back@);
    }
    eq_slices(front, other_front) && eq_slices(back, other_back)
}

impl<'a, T: PartialEq<U>, U> PartialEq<Slice<'a, U>> for VecDeque<T> {
    /// Holds if the two sequences have equal elements at every index.
    fn eq(&self, other: &Slice<'a, U>) -> (r: bool)
    {
        eq_deque_slice(self, other.as_slice())
    }
}

impl<'a, T: PartialEq<U>, U> PartialEqSpecImpl<Slice<'a, U>> for VecDeque<T> {
    open spec fn obeys_eq_spec() -> bool {
        T::obeys_eq_spec()
    }

    open spec fn eq_spec(&self, other: &Slice<'a, U>) -> bool {
        elements_eq(self@, other@)
    }
}

impl<T: PartialEq<U>, U, const N: usize> PartialEq<Array<U, N>> for VecDeque<T> {
    /// Holds if the two sequences have equal elements at every index.
    fn eq(&self, other: &Array<U, N>) -> (r: bool)
    {
        eq_deque_slice(self, other.as_slice())
    }
}

impl<T: PartialEq<U>, U, const N: usize> PartialEqSpecImpl<Array<U, N>> for VecDeque<T> {
    open spec fn obeys_eq_spec() -> bool {
        T::obeys_eq_spec()
    }

    open spec fn eq_spec(&self, other: &Array<U, N>) -> bool {
        elements_eq(self@, other@)
    }
}

impl<T: PartialEq<U>, U> PartialEq<Vec<U>> for VecDeque<T> {
    /// Holds if the two sequences have equal elements at every index.
    fn eq(&self, other: &Vec<U>) -> (r: bool)
    {
        eq_deque_slice(self, other.as_slice())
    }
}

impl<T: PartialEq<U>, U> PartialEqSpecImpl<Vec<U>> for VecDeque<T> {
    open spec fn obeys_eq_spec() -> bool {
        T::obeys_eq_spec()
    }

    open spec fn eq_spec(&self, other: &Vec<U>) -> bool {
        elements_eq(self@, other@)
    }
}

} // verus!
