//! Merging per-file results into per-language totals.
//!
//! Each successful analysis contributes its statistics under its language's
//! index. The merge is a commutative, associative fold, so the totals do not
//! depend on the order in which concurrently analyzed files complete.

use vstd::prelude::*;
use vstd::seq_lib::group_to_multiset_ensures;

use crate::stats::{stats_add, stats_zero, FileStats, StatsModel};

verus! {

/// The model of one result list: language index and statistics per file.
pub open spec fn results_view(rs: Seq<(usize, FileStats)>) -> Seq<(int, StatsModel)> {
    rs.map(|i: int, pr: (usize, FileStats)| (pr.0 as int, pr.1@))
}

/// What entry `e` adds to language `j`'s total.
pub open spec fn entry_for(e: (int, StatsModel), j: int) -> StatsModel {
    if e.0 == j {
        e.1
    } else {
        stats_zero()
    }
}

/// The monoid sum of everything recorded under language `j`.
pub open spec fn sum_for(rs: Seq<(int, StatsModel)>, j: int) -> StatsModel
    decreases rs.len(),
{
    if rs.len() == 0 {
        stats_zero()
    } else {
        stats_add(sum_for(rs.drop_last(), j), entry_for(rs[rs.len() - 1], j))
    }
}

/// All counts of `s` are non-negative.
pub open spec fn stats_nonneg(s: StatsModel) -> bool {
    s.files >= 0 && s.blank >= 0 && s.comment >= 0 && s.code >= 0
}

/// All counts of `s` fit one machine word.
pub open spec fn stats_bounded(s: StatsModel) -> bool {
    s.files <= u64::MAX && s.blank <= u64::MAX && s.comment <= u64::MAX && s.code <= u64::MAX
}

/// Law: the sum over a split result list is the merge of the two parts'
/// sums, so a parallel reduction may divide the work anywhere.
pub proof fn lemma_sum_for_split(a: Seq<(int, StatsModel)>, b: Seq<(int, StatsModel)>, j: int)
    ensures
        sum_for(a + b, j) == stats_add(sum_for(a, j), sum_for(b, j)),
    decreases b.len(),
{
    if b.len() == 0 {
        assert(a + b =~= a);
    } else {
        lemma_sum_for_split(a, b.drop_last(), j);
        assert((a + b).drop_last() =~= a + b.drop_last());
        assert((a + b)[(a + b).len() - 1] == b[b.len() - 1]);
    }
}

/// Removing entry `k` removes exactly its contribution from every total.
proof fn lemma_sum_for_remove(rs: Seq<(int, StatsModel)>, k: int, j: int)
    requires
        0 <= k < rs.len(),
    ensures
        sum_for(rs, j) == stats_add(sum_for(rs.remove(k), j), entry_for(rs[k], j)),
{
    let pre = rs.take(k);
    let mid = seq![rs[k]];
    let suf = rs.skip(k + 1);
    assert(rs =~= (pre + mid) + suf);
    assert(rs.remove(k) =~= pre + suf);
    lemma_sum_for_split(pre + mid, suf, j);
    lemma_sum_for_split(pre, mid, j);
    lemma_sum_for_split(pre, suf, j);
    assert(sum_for(mid, j) == stats_add(sum_for(mid.drop_last(), j), entry_for(mid[0], j)));
    assert(mid.drop_last() =~= Seq::<(int, StatsModel)>::empty());
    assert(sum_for(Seq::<(int, StatsModel)>::empty(), j) == stats_zero());
}

/// Law: the aggregate is independent of arrival order. Two result lists that
/// hold the same per-file results, in any order, give every language the same
/// total; so any permutation, parallel split, or interleaving of the file set
/// yields an identical aggregate.
pub proof fn lemma_sum_for_permutation(
    a: Seq<(int, StatsModel)>,
    b: Seq<(int, StatsModel)>,
    j: int,
)
    requires
        a.to_multiset() == b.to_multiset(),
    ensures
        sum_for(a, j) == sum_for(b, j),
    decreases a.len(),
{
    broadcast use group_to_multiset_ensures;

    if a.len() == 0 {
        assert(a.to_multiset().len() == a.len());
        assert(b.to_multiset().len() == b.len());
        assert(b.len() == 0);
    } else {
        let x = a[a.len() - 1];
        let a2 = a.drop_last();
        assert(a.contains(x));
        assert(b.to_multiset().contains(x));
        assert(b.contains(x));
        let k = choose|k: int| 0 <= k < b.len() && b[k] == x;
        let b2 = b.remove(k);
        assert(a =~= a2.push(x));
        assert(a2.push(x).to_multiset() == a2.to_multiset().insert(x));
        assert(b2.to_multiset() == b.to_multiset().remove(x));
        assert(a2.to_multiset() =~= b2.to_multiset());
        lemma_sum_for_permutation(a2, b2, j);
        lemma_sum_for_remove(b, k, j);
        assert(sum_for(a, j) == stats_add(sum_for(a2, j), entry_for(x, j)));
    }
}

/// A prefix's total never exceeds the whole list's total, when every entry is
/// non-negative.
proof fn lemma_sum_for_take_bound(rs: Seq<(int, StatsModel)>, i: int, j: int)
    requires
        0 <= i <= rs.len(),
        forall|t: int| 0 <= t < rs.len() ==> stats_nonneg((#[trigger] rs[t]).1),
    ensures
        stats_nonneg(sum_for(rs.take(i), j)),
        sum_for(rs.take(i), j).files <= sum_for(rs, j).files,
        sum_for(rs.take(i), j).blank <= sum_for(rs, j).blank,
        sum_for(rs.take(i), j).comment <= sum_for(rs, j).comment,
        sum_for(rs.take(i), j).code <= sum_for(rs, j).code,
    decreases rs.len() - i,
{
    if i == rs.len() {
        assert(rs.take(i) =~= rs);
        lemma_sum_for_nonneg(rs, j);
    } else {
        lemma_sum_for_take_bound(rs, i + 1, j);
        assert(rs.take(i + 1).drop_last() =~= rs.take(i));
        assert(rs.take(i + 1)[rs.take(i + 1).len() - 1] == rs[i]);
        assert(forall|t: int| 0 <= t < i ==> (#[trigger] rs.take(i)[t]) == rs[t]);
        lemma_sum_for_nonneg(rs.take(i), j);
    }
}

/// A sum of non-negative entries is non-negative.
proof fn lemma_sum_for_nonneg(rs: Seq<(int, StatsModel)>, j: int)
    requires
        forall|t: int| 0 <= t < rs.len() ==> stats_nonneg((#[trigger] rs[t]).1),
    ensures
        stats_nonneg(sum_for(rs, j)),
    decreases rs.len(),
{
    if rs.len() > 0 {
        lemma_sum_for_nonneg(rs.drop_last(), j);
    }
}

/// Merges per-file results into per-language totals: slot `j` of the result
/// receives the monoid sum of every record keyed `j`, and nothing else.
pub fn aggregate(results: &Vec<(usize, FileStats)>, n_langs: usize) -> (r: Vec<FileStats>)
    requires
        forall|i: int| 0 <= i < results@.len() ==> (#[trigger] results@[i]).0 < n_langs,
        forall|j: int|
            0 <= j < n_langs ==> stats_bounded(
                #[trigger] sum_for(results_view(results@), j),
            ),
    ensures
        r@.len() == n_langs,
        forall|j: int| 0 <= j < n_langs ==> (#[trigger] r@[j])@ == sum_for(
            results_view(results@),
            j,
        ),
{
    let ghost rv = results_view(results@);
    proof {
        assert(rv.len() == results@.len());
        assert(forall|t: int| 0 <= t < rv.len() ==> stats_nonneg((#[trigger] rv[t]).1));
    }
    let mut totals: Vec<FileStats> = Vec::new();
    let mut j: usize = 0;
    while j < n_langs
        invariant
            0 <= j <= n_langs,
            totals@.len() == j,
            forall|t: int| 0 <= t < j ==> (#[trigger] totals@[t])@ == stats_zero(),
        decreases n_langs - j,
    {
        totals.push(FileStats::zero());
        j = j + 1;
    }
    let n = results.len();
    let mut i: usize = 0;
    proof {
        assert(rv.take(0) =~= Seq::<(int, StatsModel)>::empty());
        assert(forall|t: int|
            0 <= t < n_langs ==> (#[trigger] totals@[t])@ == sum_for(rv.take(0), t));
    }
    while i < n
        invariant
            rv == results_view(results@),
            rv.len() == n,
            n == results@.len(),
            0 <= i <= n,
            totals@.len() == n_langs,
            forall|t: int| 0 <= t < rv.len() ==> (#[trigger] rv[t]).0 < n_langs,
            forall|t: int| 0 <= t < rv.len() ==> stats_nonneg((#[trigger] rv[t]).1),
            forall|t: int| 0 <= t < n_langs ==> stats_bounded(#[trigger] sum_for(rv, t)),
            forall|t: int|
                0 <= t < n_langs ==> (#[trigger] totals@[t])@ == sum_for(rv.take(i as int), t),
        decreases n - i,
    {
        let pr = results[i];
        let k = pr.0;
        let st = pr.1;
        proof {
            assert(rv[i as int] == (k as int, st@));
            assert(rv.take(i as int + 1).drop_last() =~= rv.take(i as int));
            assert(rv.take(i as int + 1)[rv.take(i as int + 1).len() - 1] == rv[i as int]);
            lemma_sum_for_take_bound(rv, i as int + 1, k as int);
            assert(sum_for(rv.take(i as int + 1), k as int) == stats_add(
                sum_for(rv.take(i as int), k as int),
                entry_for(rv[i as int], k as int),
            ));
            assert(entry_for(rv[i as int], k as int) == st@);
        }
        let cur = totals[k];
        totals.set(k, cur.add(st));
        proof {
            assert(forall|t: int|
                0 <= t < n_langs ==> (#[trigger] totals@[t])@ == sum_for(
                    rv.take(i as int + 1),
                    t,
                ));
        }
        i = i + 1;
    }
    proof {
        assert(rv.take(n as int) =~= rv);
    }
    totals
}

} // verus!
