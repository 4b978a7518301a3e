//! Sums over sequences, and how they change when one element changes.
use vstd::prelude::*;

verus! {

/// Sum of `f` over `s`.
pub open spec fn seq_sum<A>(s: Seq<A>, f: spec_fn(A) -> int) -> int
    decreases s.len(),
{
    if s.len() == 0 {
        0
    } else {
        seq_sum(s.drop_last(), f) + f(s.last())
    }
}

/// Appending adds the new element's value.
pub proof fn lemma_sum_push<A>(s: Seq<A>, f: spec_fn(A) -> int, x: A)
    ensures
        seq_sum(s.push(x), f) == seq_sum(s, f) + f(x),
{
    assert(s.push(x).drop_last() == s);
}

/// Replacing one element changes the sum by the difference of values.
pub proof fn lemma_sum_update<A>(s: Seq<A>, f: spec_fn(A) -> int, i: int, x: A)
    requires
        0 <= i < s.len(),
    ensures
        seq_sum(s.update(i, x), f) == seq_sum(s, f) - f(s[i]) + f(x),
    decreases s.len(),
{
    if i == s.len() - 1 {
        assert(s.update(i, x).drop_last() == s.drop_last());
    } else {
        lemma_sum_update(s.drop_last(), f, i, x);
        assert(s.update(i, x).drop_last() == s.drop_last().update(i, x));
    }
}

/// A sum of nonnegative values is at least each of them, and nonnegative.
pub proof fn lemma_sum_bounds<A>(s: Seq<A>, f: spec_fn(A) -> int)
    requires
        forall|i: int| 0 <= i < s.len() ==> f(#[trigger] s[i]) >= 0,
    ensures
        seq_sum(s, f) >= 0,
        forall|i: int| 0 <= i < s.len() ==> f(#[trigger] s[i]) <= seq_sum(s, f),
    decreases s.len(),
{
    if s.len() > 0 {
        lemma_sum_bounds(s.drop_last(), f);
        assert forall|i: int| 0 <= i < s.len() implies f(#[trigger] s[i]) <= seq_sum(s, f) by {
            if i < s.len() - 1 {
                assert(s[i] == s.drop_last()[i]);
            }
        }
    }
}

/// A sum of zeros is zero.
pub proof fn lemma_sum_zero<A>(s: Seq<A>, f: spec_fn(A) -> int)
    requires
        forall|i: int| 0 <= i < s.len() ==> f(#[trigger] s[i]) == 0,
    ensures
        seq_sum(s, f) == 0,
    decreases s.len(),
{
    if s.len() > 0 {
        lemma_sum_zero(s.drop_last(), f);
        assert(f(s[s.len() - 1]) == 0);
    }
}

} // verus!
