use vstd::prelude::*;

verus! {

/// The sum of a sequence of lengths.
pub open spec fn sum_of(s: Seq<isize>) -> int
    decreases s.len(),
{
    if s.len() == 0 {
        0
    } else {
        sum_of(s.drop_last()) + s.last()
    }
}

/// How many times `x` occurs in `s`.
pub open spec fn count_in(s: Seq<usize>, x: usize) -> int
    decreases s.len(),
{
    if s.len() == 0 {
        0
    } else {
        count_in(s.drop_last(), x) + if s.last() == x { 1int } else { 0int }
    }
}

/// The largest length of `s`, or zero for an empty sequence.
pub open spec fn max_of(s: Seq<isize>) -> isize
    decreases s.len(),
{
    if s.len() == 0 {
        0
    } else {
        let m = max_of(s.drop_last());
        if s.last() > m { s.last() } else { m }
    }
}

/// The smallest count of `s`, or zero for an empty sequence.
pub open spec fn min_count_of(s: Seq<usize>) -> usize
    decreases s.len(),
{
    if s.len() == 0 {
        0
    } else if s.len() == 1 {
        s[0]
    } else {
        let m = min_count_of(s.drop_last());
        if s.last() < m { s.last() } else { m }
    }
}

/// The sum of a sequence of counts.
pub open spec fn count_sum(s: Seq<usize>) -> int
    decreases s.len(),
{
    if s.len() == 0 {
        0
    } else {
        count_sum(s.drop_last()) + s.last()
    }
}

pub open spec fn saturate_isize(x: int) -> isize {
    if x > isize::MAX { isize::MAX } else { x as isize }
}

pub open spec fn saturate_usize(x: int) -> usize {
    if x > usize::MAX { usize::MAX } else { x as usize }
}

pub proof fn lemma_take_step<T>(s: Seq<T>, j: int)
    requires
        0 <= j < s.len(),
    ensures
        s.take(j + 1).drop_last() == s.take(j),
        s.take(j + 1).last() == s[j],
        s.take(s.len() as int) == s,
{
    assert(s.take(j + 1).drop_last() =~= s.take(j));
    assert(s.take(s.len() as int) =~= s);
}

pub proof fn lemma_sum_update(s: Seq<isize>, i: int, v: isize)
    requires
        0 <= i < s.len(),
    ensures
        sum_of(s.update(i, v)) == sum_of(s) - s[i] + v,
    decreases s.len(),
{
    let t = s.update(i, v);
    if i == s.len() - 1 {
        assert(t.drop_last() =~= s.drop_last());
    } else {
        assert(t.drop_last() =~= s.drop_last().update(i, v));
        lemma_sum_update(s.drop_last(), i, v);
    }
}

pub proof fn lemma_sum_bounds(s: Seq<isize>, lo: int, hi: int)
    requires
        forall|k: int| 0 <= k < s.len() ==> lo <= #[trigger] s[k] <= hi,
    ensures
        s.len() * lo <= sum_of(s) <= s.len() * hi,
    decreases s.len(),
{
    if s.len() > 0 {
        lemma_sum_bounds(s.drop_last(), lo, hi);
        let n = s.len() as int;
        assert((n - 1) * lo + lo == n * lo) by (nonlinear_arith);
        assert((n - 1) * hi + hi == n * hi) by (nonlinear_arith);
    }
}

pub proof fn lemma_elem_le_sum(s: Seq<isize>, k: int)
    requires
        0 <= k < s.len(),
        forall|j: int| 0 <= j < s.len() ==> 0 <= #[trigger] s[j],
    ensures
        s[k] <= sum_of(s),
    decreases s.len(),
{
    if k < s.len() - 1 {
        lemma_elem_le_sum(s.drop_last(), k);
    } else {
        lemma_sum_bounds(s.drop_last(), 0, isize::MAX as int);
    }
}

pub proof fn lemma_count_take(s: Seq<usize>, j: int, x: usize)
    requires
        0 <= j < s.len(),
    ensures
        count_in(s.take(j + 1), x) == count_in(s.take(j), x) + if s[j] == x { 1int } else { 0int },
{
    lemma_take_step(s, j);
}

pub proof fn lemma_count_nonneg(s: Seq<usize>, x: usize)
    ensures
        0 <= count_in(s, x) <= s.len(),
    decreases s.len(),
{
    if s.len() > 0 {
        lemma_count_nonneg(s.drop_last(), x);
    }
}

} // verus!
