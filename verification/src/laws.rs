//! What holds of the non-empty types as a whole, beyond the contract of any
//! single function.

use crate::array::Array;
use crate::sequence::elements_eq;
use crate::slice::BoxedSlice;
use crate::slice::Slice;
use crate::vec::Vec;
use vstd::prelude::*;
use vstd::std_specs::cmp::PartialEqSpec;
use vstd::std_specs::convert::TryFromSpec;

verus! {

/// A non-empty vector that is unwrapped to the vector of the standard library
/// and wrapped again by the fallible constructor is accepted, and is the
/// vector that it was, with the same elements in the same order.
pub proof fn lemma_vec_round_trip<T>(vector: Vec<T>)
    requires
        vector.wf(),
    ensures
        <Vec<T> as TryFromSpec<std::vec::Vec<T>>>::try_from_spec(vector.spec_inner()) == Ok::<
            Vec<T>,
            std::vec::Vec<T>,
        >(vector),
        vector.spec_inner()@ == vector@,
{
    Vec::lemma_spec_new_inner(vector);
}

/// A non-empty array that is unwrapped to the raw array and wrapped again by
/// the fallible constructor is accepted, and is the array that it was.
pub proof fn lemma_array_round_trip<T, const N: usize>(array: Array<T, N>)
    requires
        array.wf(),
    ensures
        Array::<T, N>::try_from_spec(array.spec_inner()) == Ok::<Array<T, N>, crate::error::Error>(
            array,
        ),
        array.spec_inner()@ == array@,
{
    Array::lemma_spec_new_inner(array);
}

/// A non-empty view that is unwrapped to the raw slice and wrapped again by
/// the fallible constructor is accepted, and is the view that it was.
pub proof fn lemma_slice_round_trip<'a, T>(slice: Slice<'a, T>)
    requires
        slice.wf(),
    ensures
        Slice::<'a, T>::try_from_spec(slice.spec_inner()) == Ok::<
            Slice<'a, T>,
            crate::error::Error,
        >(slice),
        slice.spec_inner()@ == slice@,
{
    Slice::lemma_spec_new_inner(slice);
}

/// A non-empty boxed slice that is unwrapped to the raw boxed slice and
/// wrapped again by the fallible constructor is accepted, and is the boxed
/// slice that it was.
pub proof fn lemma_boxed_slice_round_trip<T>(boxed: BoxedSlice<T>)
    requires
        boxed.wf(),
    ensures
        BoxedSlice::<T>::try_from_spec(boxed.spec_inner()) == Ok::<
            BoxedSlice<T>,
            crate::error::Error,
        >(boxed),
        boxed.spec_inner()@ == boxed@,
{
    BoxedSlice::lemma_spec_new_inner(boxed);
}

/// One step that makes a vector longer or leaves its length as it is.
pub enum Growth<T> {
    /// `push`: one element more at the end.
    Push { value: T },
    /// `insert`: one element more at an index.
    Insert { index: int, element: T },
    /// `extend` or `append`: any number of elements more at the end.
    Extend { items: Seq<T> },
}

/// The elements after one step of growth.
pub open spec fn grow<T>(elements: Seq<T>, step: Growth<T>) -> Seq<T> {
    match step {
        Growth::Push { value } => elements.push(value),
        Growth::Insert { index, element } => elements.insert(index, element),
        Growth::Extend { items } => elements + items,
    }
}

/// The elements after the first `count` of `steps`.
pub open spec fn grow_by<T>(elements: Seq<T>, steps: Seq<Growth<T>>, count: int) -> Seq<T>
    decreases count,
{
    if count <= 0 {
        elements
    } else {
        grow(grow_by(elements, steps, count - 1), steps[count - 1])
    }
}

/// Every `insert` among `steps` is at an index that the vector has when its
/// turn comes.
pub open spec fn steps_in_bounds<T>(elements: Seq<T>, steps: Seq<Growth<T>>) -> bool {
    forall|k: int|
        0 <= k < steps.len() ==> match #[trigger] steps[k] {
            Growth::Insert { index, element } => 0 <= index <= grow_by(elements, steps, k).len(),
            _ => true,
        }
}

/// Whatever is pushed, inserted, appended or extended, and in whatever
/// order, a vector that was non-empty is non-empty after every step, and
/// never shorter than before the step.
pub proof fn lemma_growth_keeps_non_empty<T>(elements: Seq<T>, steps: Seq<Growth<T>>, count: int)
    requires
        elements.len() >= 1,
        steps_in_bounds(elements, steps),
        0 <= count <= steps.len(),
    ensures
        grow_by(elements, steps, count).len() >= 1,
        grow_by(elements, steps, count).len() >= elements.len(),
        count >= 1 ==> grow_by(elements, steps, count).len() >= grow_by(
            elements,
            steps,
            count - 1,
        ).len(),
    decreases count,
{
    if count >= 1 {
        lemma_growth_keeps_non_empty(elements, steps, count - 1);
        let before = grow_by(elements, steps, count - 1);
        match steps[count - 1] {
            Growth::Push { value } => {},
            Growth::Insert { index, element } => {
                assert(0 <= index <= before.len());
            },
            Growth::Extend { items } => {},
        }
    }
}

/// Where the equality of the elements is symmetric, so is the equality of
/// the sequences: `a == b` holds exactly if `b == a` does, whichever of the
/// two is a non-empty type and whichever a raw sequence.
pub proof fn lemma_eq_symmetric<T: PartialEq<U>, U: PartialEq<T>>(a: Seq<T>, b: Seq<U>)
    requires
        forall|x: T, y: U| #[trigger] x.eq_spec(&y) == y.eq_spec(&x),
    ensures
        elements_eq(a, b) == elements_eq(b, a),
{
    if elements_eq(a, b) {
        assert forall|i: int| 0 <= i < b.len() implies (#[trigger] b[i]).eq_spec(&a[i]) by {
            assert(a[i].eq_spec(&b[i]));
        }
    }
    if elements_eq(b, a) {
        assert forall|i: int| 0 <= i < a.len() implies (#[trigger] a[i]).eq_spec(&b[i]) by {
            assert(b[i].eq_spec(&a[i]));
        }
    }
}

/// Where two elements are equal exactly if they are the same value, two
/// sequences are equal exactly if they are the same sequence.
pub proof fn lemma_eq_is_identity<T: PartialEq>(a: Seq<T>, b: Seq<T>)
    requires
        forall|x: T, y: T| #[trigger] x.eq_spec(&y) <==> x == y,
    ensures
        elements_eq(a, b) <==> a == b,
{
    if elements_eq(a, b) {
        assert(a =~= b);
    }
}

} // verus!
