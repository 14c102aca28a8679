//! Levenshtein edit distance between character sequences.

use vstd::prelude::*;
use crate::text::{chars_of, lowercase, to_lowercase};

verus! {

/// The smaller of two natural numbers.
pub open spec fn min_nat(x: nat, y: nat) -> nat {
    if x <= y { x } else { y }
}

/// The Levenshtein distance: the least number of single-character insertions,
/// deletions and substitutions that turn `a` into `b`.
pub open spec fn edit_distance(a: Seq<char>, b: Seq<char>) -> nat
    decreases a.len() + b.len(),
{
    if a.len() == 0 {
        b.len()
    } else if b.len() == 0 {
        a.len()
    } else {
        let cost: nat = if a.last() == b.last() { 0 } else { 1 };
        min_nat(
            min_nat(edit_distance(a.drop_last(), b) + 1, edit_distance(a, b.drop_last()) + 1),
            edit_distance(a.drop_last(), b.drop_last()) + cost,
        )
    }
}

/// The distance never exceeds the length of the longer sequence.
pub proof fn lemma_edit_distance_bound(a: Seq<char>, b: Seq<char>)
    ensures
        edit_distance(a, b) <= if a.len() >= b.len() { a.len() } else { b.len() },
    decreases a.len() + b.len(),
{
    if a.len() > 0 && b.len() > 0 {
        lemma_edit_distance_bound(a.drop_last(), b.drop_last());
    }
}

/// Unfolds the distance of two non-empty prefixes into the distances of shorter prefixes.
proof fn lemma_edit_distance_step(a: Seq<char>, b: Seq<char>, i: int, j: int)
    requires
        0 <= i < a.len(),
        0 <= j < b.len(),
    ensures
        edit_distance(a.take(i + 1), b.take(j + 1)) == min_nat(
            min_nat(
                edit_distance(a.take(i), b.take(j + 1)) + 1,
                edit_distance(a.take(i + 1), b.take(j)) + 1,
            ),
            edit_distance(a.take(i), b.take(j)) + (if a[i] == b[j] { 0nat } else { 1nat }),
        ),
{
    let x = a.take(i + 1);
    let y = b.take(j + 1);
    assert(x.drop_last() =~= a.take(i));
    assert(y.drop_last() =~= b.take(j));
    assert(x.last() == a[i]);
    assert(y.last() == b[j]);
}

/// Edit distance of two character vectors, computed row by row with a single
/// row of the dynamic-programming table.
pub fn edit_distance_chars(a: &Vec<char>, b: &Vec<char>) -> (r: usize)
    ensures
        r == edit_distance(a@, b@),
{
    let la = a.len();
    let lb = b.len();
    if la == 0 {
        return lb;
    }
    if lb == 0 {
        return la;
    }
    // row[k] holds the distance between the first i characters of `a`
    // and the first k + 1 characters of `b`.
    let mut row: Vec<usize> = Vec::new();
    let mut k: usize = 0;
    while k < lb
        invariant
            k <= lb,
            lb == b@.len(),
            row@.len() == k,
            forall|m: int| 0 <= m < k ==> row@[m] == m + 1,
        decreases lb - k,
    {
        row.push(k + 1);
        k = k + 1;
    }
    proof {
        assert forall|m: int| 0 <= m < lb implies row@[m] == edit_distance(a@.take(0), b@.take(m + 1)) by {
            assert(a@.take(0).len() == 0);
        }
    }
    let mut i: usize = 0;
    while i < la
        invariant
            i <= la,
            la == a@.len(),
            lb == b@.len(),
            lb > 0,
            row@.len() == lb,
            forall|m: int| 0 <= m < lb ==> row@[m] == edit_distance(a@.take(i as int), b@.take(m + 1)),
        decreases la - i,
    {
        let ca = a[i];
        // `diag` is the distance for (i, j) and `left` for (i + 1, j).
        let mut diag: usize = i;
        let mut left: usize = i + 1;
        proof {
            assert(b@.take(0).len() == 0);
            assert(a@.take(i as int).len() == i);
            assert(a@.take(i + 1).len() == i + 1);
        }
        let mut j: usize = 0;
        while j < lb
            invariant
                i < la,
                j <= lb,
                la == a@.len(),
                lb == b@.len(),
                ca == a@[i as int],
                row@.len() == lb,
                forall|m: int| 0 <= m < j ==> row@[m] == edit_distance(a@.take(i + 1), b@.take(m + 1)),
                forall|m: int| j <= m < lb ==> row@[m] == edit_distance(a@.take(i as int), b@.take(m + 1)),
                diag == edit_distance(a@.take(i as int), b@.take(j as int)),
                left == edit_distance(a@.take(i + 1), b@.take(j as int)),
            decreases lb - j,
        {
            let up = row[j];
            let cost: usize = if ca == b[j] { 0 } else { 1 };
            proof {
                lemma_edit_distance_bound(a@.take(i as int), b@.take(j as int));
                lemma_edit_distance_step(a@, b@, i as int, j as int);
            }
            let m = if up <= left { up } else { left };
            let sub = diag + cost;
            let val = if m < sub { m + 1 } else { sub };
            diag = up;
            row.set(j, val);
            left = val;
            j = j + 1;
        }
        i = i + 1;
    }
    proof {
        assert(a@.take(la as int) =~= a@);
        assert(b@.take(lb as int) =~= b@);
    }
    row[lb - 1]
}

/// A sequence is at distance zero from itself.
pub proof fn lemma_edit_distance_identity(a: Seq<char>)
    ensures
        edit_distance(a, a) == 0,
    decreases a.len(),
{
    if a.len() > 0 {
        lemma_edit_distance_identity(a.drop_last());
    }
}

/// The distance from `a` to `b` equals the distance from `b` to `a`.
pub proof fn lemma_edit_distance_symmetric(a: Seq<char>, b: Seq<char>)
    ensures
        edit_distance(a, b) == edit_distance(b, a),
    decreases a.len() + b.len(),
{
    if a.len() > 0 && b.len() > 0 {
        lemma_edit_distance_symmetric(a.drop_last(), b);
        lemma_edit_distance_symmetric(a, b.drop_last());
        lemma_edit_distance_symmetric(a.drop_last(), b.drop_last());
    }
}

/// The distance is at least the difference of the lengths.
proof fn lemma_edit_distance_lower(a: Seq<char>, b: Seq<char>)
    ensures
        edit_distance(a, b) + b.len() >= a.len(),
        edit_distance(a, b) + a.len() >= b.len(),
    decreases a.len() + b.len(),
{
    if a.len() > 0 && b.len() > 0 {
        lemma_edit_distance_lower(a.drop_last(), b);
        lemma_edit_distance_lower(a, b.drop_last());
        lemma_edit_distance_lower(a.drop_last(), b.drop_last());
    }
}

/// Distance zero holds only between equal sequences.
pub proof fn lemma_edit_distance_zero(a: Seq<char>, b: Seq<char>)
    ensures
        (edit_distance(a, b) == 0) <==> (a == b),
    decreases a.len() + b.len(),
{
    if a == b {
        lemma_edit_distance_identity(a);
    } else if a.len() > 0 && b.len() > 0 {
        lemma_edit_distance_zero(a.drop_last(), b.drop_last());
        if edit_distance(a, b) == 0 {
            assert(edit_distance(a.drop_last(), b.drop_last()) == 0);
            assert(a.last() == b.last());
            assert(a.drop_last() == b.drop_last());
            assert(a =~= a.drop_last().push(a.last()));
            assert(b =~= b.drop_last().push(b.last()));
            assert(false);
        }
    } else if a.len() == 0 && b.len() == 0 {
        assert(a =~= b);
    }
}

/// The triangle inequality: going from `a` to `c` by way of `b` never
/// beats going directly.
pub proof fn lemma_edit_distance_triangle(a: Seq<char>, b: Seq<char>, c: Seq<char>)
    ensures
        edit_distance(a, c) <= edit_distance(a, b) + edit_distance(b, c),
    decreases a.len() + b.len() + c.len(),
{
    if a.len() == 0 {
        lemma_edit_distance_lower(b, c);
    } else if c.len() == 0 {
        lemma_edit_distance_lower(a, b);
    } else if b.len() == 0 {
        lemma_edit_distance_bound(a, c);
    } else {
        let a1 = a.drop_last();
        let b1 = b.drop_last();
        let c1 = c.drop_last();
        lemma_edit_distance_triangle(a1, b, c);
        lemma_edit_distance_triangle(a, b, c1);
        lemma_edit_distance_triangle(a, b1, c);
        lemma_edit_distance_triangle(a, b1, c1);
        lemma_edit_distance_triangle(a1, b1, c);
        lemma_edit_distance_triangle(a1, b1, c1);
    }
}

/// Levenshtein distance on strings compared without regard to case is a
/// metric on their lower-cased forms: symmetric, zero exactly on strings
/// that lower-case alike, and obeying the triangle inequality.
pub proof fn law_levenshtein_is_metric(a: Seq<char>, b: Seq<char>, c: Seq<char>)
    ensures
        edit_distance(lowercase(a), lowercase(b)) == edit_distance(lowercase(b), lowercase(a)),
        (edit_distance(lowercase(a), lowercase(b)) == 0) <==> (lowercase(a) == lowercase(b)),
        edit_distance(lowercase(a), lowercase(c)) <= edit_distance(lowercase(a), lowercase(b))
            + edit_distance(lowercase(b), lowercase(c)),
{
    lemma_edit_distance_symmetric(lowercase(a), lowercase(b));
    lemma_edit_distance_zero(lowercase(a), lowercase(b));
    lemma_edit_distance_triangle(lowercase(a), lowercase(b), lowercase(c));
}

/// Case-insensitive Levenshtein distance between two strings: both are
/// lower-cased first, then compared character by character.
pub fn levenshtein_distance(a: &str, b: &str) -> (r: usize)
    ensures
        r == edit_distance(lowercase(a@), lowercase(b@)),
{
    let a_lower = to_lowercase(a);
    let b_lower = to_lowercase(b);
    let av = chars_of(a_lower.as_str());
    let bv = chars_of(b_lower.as_str());
    edit_distance_chars(&av, &bv)
}

} // verus!
