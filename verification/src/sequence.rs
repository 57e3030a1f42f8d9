//! Equality and ordering of sequences, element by element.
//!
//! Every comparison of this crate, between any two of the non-empty types and
//! the raw sequences, is one of the three functions of this module applied to
//! the underlying slices.

use core::cmp::Ordering;
use vstd::prelude::*;
use vstd::std_specs::cmp::OrdSpec;
use vstd::std_specs::cmp::PartialEqSpec;
use vstd::std_specs::cmp::PartialOrdSpec;

verus! {

/// Two sequences are equal when they have the same length and equal elements
/// at every index.
pub open spec fn elements_eq<T: PartialEq<U>, U>(a: Seq<T>, b: Seq<U>) -> bool {
    &&& a.len() == b.len()
    &&& forall|i: int| 0 <= i < a.len() ==> (#[trigger] a[i]).eq_spec(&b[i])
}

/// The lexicographic partial order of two sequences: the first pair of
/// elements that does not compare as equal decides, and where there is none
/// the shorter sequence is the lesser.
pub open spec fn lex_partial_cmp<T: PartialOrd>(a: Seq<T>, b: Seq<T>) -> Option<Ordering>
    decreases a.len(),
{
    if a.len() == 0 {
        if b.len() == 0 {
            Some(Ordering::Equal)
        } else {
            Some(Ordering::Less)
        }
    } else if b.len() == 0 {
        Some(Ordering::Greater)
    } else {
        match a[0].partial_cmp_spec(&b[0]) {
            Some(Ordering::Equal) => lex_partial_cmp(a.drop_first(), b.drop_first()),
            decided => decided,
        }
    }
}

/// The lexicographic total order of two sequences.
pub open spec fn lex_cmp<T: Ord>(a: Seq<T>, b: Seq<T>) -> Ordering
    decreases a.len(),
{
    if a.len() == 0 {
        if b.len() == 0 {
            Ordering::Equal
        } else {
            Ordering::Less
        }
    } else if b.len() == 0 {
        Ordering::Greater
    } else {
        match a[0].cmp_spec(&b[0]) {
            Ordering::Equal => lex_cmp(a.drop_first(), b.drop_first()),
            decided => decided,
        }
    }
}

/// Skipping one element more is dropping the first of what was left.
proof fn lemma_skip_step<T>(s: Seq<T>, k: int)
    requires
        0 <= k < s.len(),
    ensures
        s.skip(k).len() == s.len() - k,
        s.skip(k)[0] == s[k],
        s.skip(k).drop_first() == s.skip(k + 1),
{
    assert(s.skip(k).drop_first() =~= s.skip(k + 1));
}

/// Compares two slices for equality, element by element.
pub fn eq_slices<T: PartialEq<U>, U>(a: &[T], b: &[U]) -> (r: bool)
    ensures
        T::obeys_eq_spec() ==> r == elements_eq(a@, b@),
{
    if a.len() != b.len() {
        return false;
    }
    let mut i: usize = 0;
    while i < a.len()
        invariant
            a.len() == b.len(),
            i <= a.len(),
            T::obeys_eq_spec() ==> forall|j: int| 0 <= j < i ==> (#[trigger] a@[j]).eq_spec(&b@[j]),
        decreases a.len() - i,
    {
        if !(a[i] == b[i]) {
            return false;
        }
        i = i + 1;
    }
    true
}

/// Compares two slices in the lexicographic partial order.
pub fn partial_cmp_slices<T: PartialOrd>(a: &[T], b: &[T]) -> (r: Option<Ordering>)
    ensures
        T::obeys_partial_cmp_spec() ==> r == lex_partial_cmp(a@, b@),
{
    let mut i: usize = 0;
    let ghost mut k: int = 0;
    assert(a@.skip(0) =~= a@ && b@.skip(0) =~= b@);
    while i < a.len() && i < b.len()
        invariant
            k == i,
            i <= a.len(),
            i <= b.len(),
            T::obeys_partial_cmp_spec() ==> lex_partial_cmp(a@, b@) == lex_partial_cmp(
                a@.skip(k),
                b@.skip(k),
            ),
        decreases a.len() - i,
    {
        proof {
            lemma_skip_step(a@, k);
            lemma_skip_step(b@, k);
        }
        match a[i].partial_cmp(&b[i]) {
            Some(Ordering::Equal) => {},
            decided => {
                return decided;
            },
        }
        i = i + 1;
        proof {
            k = k + 1;
        }
    }
    if i < b.len() {
        Some(Ordering::Less)
    } else if i < a.len() {
        Some(Ordering::Greater)
    } else {
        Some(Ordering::Equal)
    }
}

/// Compares two slices in the lexicographic total order.
pub fn cmp_slices<T: Ord>(a: &[T], b: &[T]) -> (r: Ordering)
    ensures
        T::obeys_cmp_spec() ==> r == lex_cmp(a@, b@),
{
    let mut i: usize = 0;
    let ghost mut k: int = 0;
    assert(a@.skip(0) =~= a@ && b@.skip(0) =~= b@);
    while i < a.len() && i < b.len()
        invariant
            k == i,
            i <= a.len(),
            i <= b.len(),
            T::obeys_cmp_spec() ==> lex_cmp(a@, b@) == lex_cmp(a@.skip(k), b@.skip(k)),
        decreases a.len() - i,
    {
        proof {
            lemma_skip_step(a@, k);
            lemma_skip_step(b@, k);
        }
        match a[i].cmp(&b[i]) {
            Ordering::Equal => {},
            decided => {
                return decided;
            },
        }
        i = i + 1;
        proof {
            k = k + 1;
        }
    }
    if i < b.len() {
        Ordering::Less
    } else if i < a.len() {
        Ordering::Greater
    } else {
        Ordering::Equal
    }
}

} // verus!
