//! Deterministic comparison of integer triples.
//!
//! Both vector types compare by the same scheme: a lexicographic walk over a
//! three-component key, with equality checked first.  The shared spec lives
//! here together with the proofs that it is a total order.

use vstd::prelude::*;

verus! {

use core::cmp::Ordering;

/// Lexicographic comparison of two integer triples: the first component
/// decides, ties fall through to the second, then to the third.
pub open spec fn lex3_cmp(a: (int, int, int), b: (int, int, int)) -> Ordering {
    if a == b {
        Ordering::Equal
    } else if a.0 != b.0 {
        if a.0 > b.0 {
            Ordering::Greater
        } else {
            Ordering::Less
        }
    } else if a.1 != b.1 {
        if a.1 > b.1 {
            Ordering::Greater
        } else {
            Ordering::Less
        }
    } else {
        if a.2 > b.2 {
            Ordering::Greater
        } else {
            Ordering::Less
        }
    }
}

/// The comparison reports `Equal` exactly on equal keys.
pub proof fn lemma_lex3_equal_iff(a: (int, int, int), b: (int, int, int))
    ensures
        lex3_cmp(a, b) == Ordering::Equal <==> a == b,
{
}

/// Antisymmetry: swapping the operands flips `Less` and `Greater`.
pub proof fn lemma_lex3_antisymmetric(a: (int, int, int), b: (int, int, int))
    ensures
        lex3_cmp(a, b) == Ordering::Less <==> lex3_cmp(b, a) == Ordering::Greater,
        lex3_cmp(a, b) == Ordering::Equal <==> lex3_cmp(b, a) == Ordering::Equal,
{
}

/// Transitivity of the strict order.
pub proof fn lemma_lex3_transitive(a: (int, int, int), b: (int, int, int), c: (int, int, int))
    requires
        lex3_cmp(a, b) == Ordering::Less,
        lex3_cmp(b, c) == Ordering::Less,
    ensures
        lex3_cmp(a, c) == Ordering::Less,
{
}

/// Totality: every pair of keys is ordered one way or the other.
pub proof fn lemma_lex3_total(a: (int, int, int), b: (int, int, int))
    ensures
        lex3_cmp(a, b) == Ordering::Less || lex3_cmp(a, b) == Ordering::Equal || lex3_cmp(
            a,
            b,
        ) == Ordering::Greater,
{
}

} // verus!
