//! Sums of sequences of natural numbers, and the facts about them that the
//! block totals rest on.

use vstd::prelude::*;

verus! {

/// The sum of a sequence of naturals.
pub open spec fn sum(s: Seq<nat>) -> nat
    decreases s.len(),
{
    if s.len() == 0 {
        0
    } else {
        sum(s.drop_last()) + s.last()
    }
}

/// Extending a prefix by one element adds that element.
pub proof fn lemma_sum_take_next(s: Seq<nat>, i: int)
    requires
        0 <= i < s.len(),
    ensures
        sum(s.take(i + 1)) == sum(s.take(i)) + s[i],
{
    assert(s.take(i + 1).drop_last() =~= s.take(i));
}

/// A prefix sums to no more than the whole.
pub proof fn lemma_sum_prefix_le(s: Seq<nat>, i: int)
    requires
        0 <= i <= s.len(),
    ensures
        sum(s.take(i)) <= sum(s),
    decreases s.len() - i,
{
    if i < s.len() {
        lemma_sum_take_next(s, i);
        lemma_sum_prefix_le(s, i + 1);
    } else {
        assert(s.take(i) =~= s);
    }
}

/// The sum of a concatenation is the sum of the sums.
pub proof fn lemma_sum_append(a: Seq<nat>, b: Seq<nat>)
    ensures
        sum(a + b) == sum(a) + sum(b),
    decreases b.len(),
{
    if b.len() == 0 {
        assert(a + b =~= a);
    } else {
        assert((a + b).drop_last() =~= a + b.drop_last());
        lemma_sum_append(a, b.drop_last());
    }
}

/// A sequence whose elements are each at most `m` sums to at most its
/// length times `m`.
pub proof fn lemma_sum_bound(s: Seq<nat>, m: nat)
    requires
        forall|i: int| 0 <= i < s.len() ==> s[i] <= m,
    ensures
        sum(s) <= s.len() * m,
    decreases s.len(),
{
    if s.len() > 0 {
        let t = s.drop_last();
        assert forall|i: int| 0 <= i < t.len() implies t[i] <= m by {
            assert(t[i] == s[i]);
        }
        lemma_sum_bound(t, m);
        let k = t.len();
        assert(k * m + m == (k + 1) * m) by (nonlinear_arith);
    }
}

} // verus!
