//! Per-file line statistics and their commutative-monoid merge.

use vstd::prelude::*;

verus! {

/// Mathematical model of a statistics record: unbounded counts.
pub ghost struct StatsModel {
    pub files: int,
    pub blank: int,
    pub comment: int,
    pub code: int,
}

/// The monoid identity: all counts zero.
pub open spec fn stats_zero() -> StatsModel {
    StatsModel { files: 0, blank: 0, comment: 0, code: 0 }
}

/// Component-wise sum of two statistics records.
pub open spec fn stats_add(a: StatsModel, b: StatsModel) -> StatsModel {
    StatsModel {
        files: a.files + b.files,
        blank: a.blank + b.blank,
        comment: a.comment + b.comment,
        code: a.code + b.code,
    }
}

/// Line counts for one analyzed file (or a sum of several).
#[derive(Debug, Clone, Copy, PartialEq, Eq, Structural)]
pub struct FileStats {
    pub files: u64,
    pub blank_lines: u64,
    pub comment_lines: u64,
    pub code_lines: u64,
}

impl View for FileStats {
    type V = StatsModel;

    open spec fn view(&self) -> StatsModel {
        StatsModel {
            files: self.files as int,
            blank: self.blank_lines as int,
            comment: self.comment_lines as int,
            code: self.code_lines as int,
        }
    }
}

impl Default for FileStats {
    fn default() -> (r: FileStats)
        ensures
            r@ == stats_zero(),
    {
        FileStats { files: 0, blank_lines: 0, comment_lines: 0, code_lines: 0 }
    }
}

impl FileStats {
    /// The record an empty merge produces: all counts zero.
    pub fn zero() -> (r: FileStats)
        ensures
            r@ == stats_zero(),
    {
        FileStats { files: 0, blank_lines: 0, comment_lines: 0, code_lines: 0 }
    }

    /// Component-wise addition; the executable face of `stats_add`.
    pub fn add(self, other: FileStats) -> (r: FileStats)
        requires
            self@.files + other@.files <= u64::MAX,
            self@.blank + other@.blank <= u64::MAX,
            self@.comment + other@.comment <= u64::MAX,
            self@.code + other@.code <= u64::MAX,
        ensures
            r@ == stats_add(self@, other@),
    {
        FileStats {
            files: self.files + other.files,
            blank_lines: self.blank_lines + other.blank_lines,
            comment_lines: self.comment_lines + other.comment_lines,
            code_lines: self.code_lines + other.code_lines,
        }
    }
}

/// Law: merging statistics is commutative, so concurrent completions may be
/// folded in any order of arrival.
pub proof fn lemma_stats_add_comm(a: StatsModel, b: StatsModel)
    ensures
        stats_add(a, b) == stats_add(b, a),
{
}

/// Law: merging statistics is associative, so a parallel reduction may split
/// the work anywhere.
pub proof fn lemma_stats_add_assoc(a: StatsModel, b: StatsModel, c: StatsModel)
    ensures
        stats_add(stats_add(a, b), c) == stats_add(a, stats_add(b, c)),
{
}

/// Law: the all-zero record is the identity of the merge.
pub proof fn lemma_stats_add_zero(a: StatsModel)
    ensures
        stats_add(a, stats_zero()) == a,
        stats_add(stats_zero(), a) == a,
{
}

} // verus!
