//! Lexicographic comparison of byte strings.
use core::cmp::Ordering;
use vstd::prelude::*;

verus! {

/// The first position at which `a` and `b` differ, or the length of the
/// shorter one where it is a prefix of the other.
pub open spec fn first_difference(a: Seq<u8>, b: Seq<u8>) -> int
    decreases a.len(),
{
    if a.len() == 0 || b.len() == 0 || a[0] != b[0] {
        0
    } else {
        1 + first_difference(a.drop_first(), b.drop_first())
    }
}

/// The lexicographic order of byte strings: the bytes at the first
/// difference decide, and a proper prefix comes before what it is a prefix of.
pub open spec fn lexical_order(a: Seq<u8>, b: Seq<u8>) -> Ordering {
    let n = first_difference(a, b);
    if n == a.len() {
        if n == b.len() {
            Ordering::Equal
        } else {
            Ordering::Less
        }
    } else if n == b.len() {
        Ordering::Greater
    } else if a[n] < b[n] {
        Ordering::Less
    } else {
        Ordering::Greater
    }
}

/// The first difference lies within both strings, the strings agree before
/// it, and they differ at it where both reach that far.
pub proof fn lemma_first_difference(a: Seq<u8>, b: Seq<u8>)
    ensures
        0 <= first_difference(a, b) <= a.len(),
        first_difference(a, b) <= b.len(),
        forall|j: int| 0 <= j < first_difference(a, b) ==> a[j] == b[j],
        first_difference(a, b) < a.len() && first_difference(a, b) < b.len() ==> a[first_difference(
            a,
            b,
        )] != b[first_difference(a, b)],
    decreases a.len(),
{
    if a.len() == 0 || b.len() == 0 || a[0] != b[0] {
    } else {
        let a1 = a.drop_first();
        let b1 = b.drop_first();
        lemma_first_difference(a1, b1);
        let n1 = first_difference(a1, b1);
        assert forall|j: int| 0 <= j < 1 + n1 implies a[j] == b[j] by {
            if j > 0 {
                assert(a1[j - 1] == a[j]);
                assert(b1[j - 1] == b[j]);
            }
        }
        if n1 < a1.len() && n1 < b1.len() {
            assert(a1[n1] == a[n1 + 1]);
            assert(b1[n1] == b[n1 + 1]);
        }
    }
}

/// Two byte strings are the same exactly when their first difference lies at
/// the end of both.
pub proof fn lemma_first_difference_at_end(a: Seq<u8>, b: Seq<u8>)
    ensures
        (first_difference(a, b) == a.len() && first_difference(a, b) == b.len()) <==> a == b,
{
    lemma_first_difference(a, b);
    if first_difference(a, b) == a.len() && first_difference(a, b) == b.len() {
        assert(a =~= b);
    }
}

/// Position of the first difference between `a` and `b`.
pub fn find_first_difference(a: &[u8], b: &[u8]) -> (n: usize)
    ensures
        n == first_difference(a@, b@),
{
    let mut i: usize = 0;
    proof {
        assert(a@.skip(0) =~= a@);
        assert(b@.skip(0) =~= b@);
    }
    while i < a.len() && i < b.len() && a[i] == b[i]
        invariant
            i <= a.len(),
            i <= b.len(),
            first_difference(a@, b@) == i + first_difference(a@.skip(i as int), b@.skip(i as int)),
        decreases a.len() - i,
    {
        proof {
            assert(a@.skip(i as int).drop_first() =~= a@.skip(i + 1));
            assert(b@.skip(i as int).drop_first() =~= b@.skip(i + 1));
        }
        i = i + 1;
    }
    i
}

/// Whether `a` and `b` hold the same bytes.
pub fn same_bytes(a: &[u8], b: &[u8]) -> (r: bool)
    ensures
        r == (a@ == b@),
{
    if a.len() != b.len() {
        return false;
    }
    let n = find_first_difference(a, b);
    proof {
        lemma_first_difference_at_end(a@, b@);
    }
    n == a.len()
}

/// Lexicographic comparison of `a` with `b`.
pub fn compare_bytes(a: &[u8], b: &[u8]) -> (r: Ordering)
    ensures
        r == lexical_order(a@, b@),
{
    let n = find_first_difference(a, b);
    proof {
        lemma_first_difference(a@, b@);
    }
    if n == a.len() {
        if n == b.len() {
            Ordering::Equal
        } else {
            Ordering::Less
        }
    } else if n == b.len() {
        Ordering::Greater
    } else if a[n] < b[n] {
        Ordering::Less
    } else {
        Ordering::Greater
    }
}

} // verus!
