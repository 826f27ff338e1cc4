use vstd::prelude::*;

verus! {

/// The sum of a sequence of integers.
pub open spec fn seq_sum(s: Seq<int>) -> int
    decreases s.len(),
{
    if s.len() == 0 {
        0
    } else {
        seq_sum(s.drop_last()) + s.last()
    }
}

/// The largest element of a sequence of integers, or 0 when it is empty or
/// every element is negative.
pub open spec fn seq_max(s: Seq<int>) -> int
    decreases s.len(),
{
    if s.len() == 0 {
        0
    } else if seq_max(s.drop_last()) >= s.last() {
        seq_max(s.drop_last())
    } else {
        s.last()
    }
}

pub open spec fn all_nonneg(s: Seq<int>) -> bool {
    forall|i: int| 0 <= i < s.len() ==> s[i] >= 0
}

pub proof fn lemma_take_next(s: Seq<int>, k: int)
    requires
        0 <= k < s.len(),
    ensures
        s.take(k + 1).drop_last() == s.take(k),
        s.take(k + 1).last() == s[k],
{
    assert(s.take(k + 1).drop_last() =~= s.take(k));
}

/// A sum of non-negative integers bounds each of its prefixes, which are
/// non-negative too.
pub proof fn lemma_prefix_sum_bounded(s: Seq<int>, k: int)
    requires
        all_nonneg(s),
        0 <= k <= s.len(),
    ensures
        0 <= seq_sum(s.take(k)) <= seq_sum(s),
    decreases s.len(),
{
    if s.len() == 0 {
        assert(s.take(k) =~= s);
    } else if k == s.len() {
        assert(s.take(k) =~= s);
        lemma_prefix_sum_bounded(s.drop_last(), k - 1);
        assert(s.drop_last().take(k - 1) =~= s.drop_last());
    } else {
        lemma_prefix_sum_bounded(s.drop_last(), k);
        assert(s.drop_last().take(k) =~= s.take(k));
    }
}

/// Every element is at most the maximum, and the maximum is non-negative.
pub proof fn lemma_max_bounds(s: Seq<int>, i: int)
    requires
        0 <= i < s.len(),
    ensures
        s[i] <= seq_max(s),
        0 <= seq_max(s),
    decreases s.len(),
{
    if i < s.len() - 1 {
        lemma_max_bounds(s.drop_last(), i);
    } else if s.len() > 1 {
        lemma_max_bounds(s.drop_last(), 0);
    }
}

/// A non-empty sequence attains its maximum, unless all of it is negative.
pub proof fn lemma_max_attained(s: Seq<int>)
    requires
        s.len() > 0,
    ensures
        seq_max(s) == 0 || exists|i: int| 0 <= i < s.len() && s[i] == seq_max(s),
    decreases s.len(),
{
    if s.len() > 1 {
        lemma_max_attained(s.drop_last());
        if seq_max(s.drop_last()) >= s.last() && seq_max(s.drop_last()) != 0 {
            let i = choose|i: int| 0 <= i < s.len() - 1 && s.drop_last()[i] == seq_max(s.drop_last());
            assert(s[i] == seq_max(s));
        } else if seq_max(s.drop_last()) < s.last() {
            assert(s[s.len() - 1] == seq_max(s));
        }
    } else {
        if seq_max(s.drop_last()) < s.last() {
            assert(s[0] == seq_max(s));
        }
    }
}

pub proof fn lemma_max_nonneg(s: Seq<int>)
    ensures
        0 <= seq_max(s),
{
    if s.len() > 0 {
        lemma_max_bounds(s, 0);
    }
}

} // verus!
