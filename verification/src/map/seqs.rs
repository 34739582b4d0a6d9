//! Checks on a listing that the verifier can run through by unfolding: where
//! a value first stands in a sequence, and whether each item stands there
//! for the first time.

use vstd::prelude::*;

verus! {

/// The first index at or after `from` at which `x` stands in `s`, or -1.
pub open spec fn position<T>(s: Seq<T>, x: T, from: int) -> int
    decreases s.len() - from,
{
    if from < 0 || from >= s.len() {
        -1
    } else if s[from] == x {
        from
    } else {
        position(s, x, from + 1)
    }
}

/// Each of the first `n` items of `s` stands at its own index for the first
/// time.
pub open spec fn each_first<T>(s: Seq<T>, n: int) -> bool
    decreases n,
{
    n <= 0 || (position(s, s[n - 1], 0) == n - 1 && each_first(s, n - 1))
}

/// Where `position` finds `x`, there `x` stands, and nowhere between `from`
/// and that index.
pub proof fn lemma_position<T>(s: Seq<T>, x: T, from: int)
    requires
        0 <= from,
    ensures
        position(s, x, from) >= 0 ==> from <= position(s, x, from) < s.len() && s[position(
            s,
            x,
            from,
        )] == x,
        forall|i: int|
            from <= i < s.len() && (position(s, x, from) < 0 || i < position(s, x, from)) ==> s[i]
                != x,
    decreases s.len() - from,
{
    if from < s.len() && s[from] != x {
        lemma_position(s, x, from + 1);
    }
}

/// A value that `position` finds is in the sequence.
pub proof fn lemma_found<T>(s: Seq<T>, x: T)
    requires
        position(s, x, 0) >= 0,
    ensures
        s.contains(x),
{
    lemma_position(s, x, 0);
    assert(s[position(s, x, 0)] == x);
}

/// A sequence whose every item stands at its own index for the first time
/// holds nothing twice.
pub proof fn lemma_each_first<T>(s: Seq<T>, n: int)
    requires
        0 <= n <= s.len(),
        each_first(s, n),
    ensures
        forall|i: int, j: int| 0 <= i < j < n ==> s[i] != s[j],
    decreases n,
{
    if n > 0 {
        lemma_each_first(s, n - 1);
        lemma_position(s, s[n - 1], 0);
    }
}

/// A sequence whose every item stands at its own index for the first time
/// has no duplicates.
pub proof fn lemma_no_duplicates<T>(s: Seq<T>)
    requires
        each_first(s, s.len() as int),
    ensures
        s.no_duplicates(),
{
    lemma_each_first(s, s.len() as int);
    assert forall|i: int, j: int| 0 <= i < s.len() && 0 <= j < s.len() && i != j implies s[i]
        != s[j] by {
        if i < j {
            assert(s[i] != s[j]);
        } else {
            assert(s[j] != s[i]);
        }
    }
}

} // verus!
