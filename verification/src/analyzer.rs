//! Per-file analysis: drives the line classifier over a file's lines and
//! accumulates its statistics.

use vstd::prelude::*;

use crate::classifier::{
    classify_line, classify_spec, start_state, state_wf, ClassifierState, LineClass, StateModel,
};
use crate::profile::{profile_wf, LanguageProfile, ProfileModel};
use crate::stats::{stats_add, stats_zero, FileStats, StatsModel};

verus! {

/// The counter contribution of one classified line.
pub open spec fn line_stat(c: LineClass) -> StatsModel {
    match c {
        LineClass::Blank => StatsModel { files: 0, blank: 1, comment: 0, code: 0 },
        LineClass::Comment => StatsModel { files: 0, blank: 0, comment: 1, code: 0 },
        LineClass::Code => StatsModel { files: 0, blank: 0, comment: 0, code: 1 },
    }
}

/// The line counters a run over `lines` accumulates, classifying each line in
/// order and threading the state from one line to the next.
pub open spec fn count_lines(p: ProfileModel, lines: Seq<Seq<u8>>, st: StateModel) -> StatsModel
    decreases lines.len(),
{
    if lines.len() == 0 {
        stats_zero()
    } else {
        let step = classify_spec(p, lines[0], st);
        stats_add(line_stat(step.0), count_lines(p, lines.drop_first(), step.1))
    }
}

/// The statistics of one fully analyzed file: one file counted, plus the line
/// counters of a run started outside any block comment.
pub open spec fn file_stats_model(p: ProfileModel, lines: Seq<Seq<u8>>) -> StatsModel {
    stats_add(
        StatsModel { files: 1, blank: 0, comment: 0, code: 0 },
        count_lines(p, lines, start_state()),
    )
}

/// Law: every line lands in exactly one category, so the three line counters
/// of a run sum to the number of lines read.
pub proof fn lemma_line_coverage(p: ProfileModel, lines: Seq<Seq<u8>>, st: StateModel)
    ensures
        count_lines(p, lines, st).files == 0,
        count_lines(p, lines, st).blank + count_lines(p, lines, st).comment + count_lines(
            p,
            lines,
            st,
        ).code == lines.len(),
    decreases lines.len(),
{
    if lines.len() > 0 {
        let step = classify_spec(p, lines[0], st);
        lemma_line_coverage(p, lines.drop_first(), step.1);
    }
}

/// Classifies every line of one file, starting outside any block comment, and
/// returns its statistics: one file, and each line counted under the one
/// category the classifier gives it.
pub fn analyze_lines(profile: &LanguageProfile, lines: &Vec<Vec<u8>>) -> (r: FileStats)
    requires
        profile_wf(profile@),
    ensures
        r@ == file_stats_model(profile@, lines.deep_view()),
        r@.files == 1,
        r@.blank + r@.comment + r@.code == lines@.len(),
{
    let ghost p = profile@;
    let ghost dv = lines.deep_view();
    let n = lines.len();
    let mut state = ClassifierState::new();
    let mut blank: u64 = 0;
    let mut comment: u64 = 0;
    let mut code: u64 = 0;
    let mut i: usize = 0;
    proof {
        assert(dv.skip(0) =~= dv);
    }
    while i < n
        invariant
            p == profile@,
            profile_wf(p),
            dv == lines.deep_view(),
            dv.len() == n,
            n == lines@.len(),
            0 <= i <= n,
            state_wf(state@),
            blank + comment + code == i,
            stats_add(
                StatsModel {
                    files: 0,
                    blank: blank as int,
                    comment: comment as int,
                    code: code as int,
                },
                count_lines(p, dv.skip(i as int), state@),
            ) == count_lines(p, dv, start_state()),
        decreases n - i,
    {
        let line = &lines[i];
        proof {
            assert(line@ =~= dv[i as int]);
            assert(dv.skip(i as int)[0] == dv[i as int]);
            assert(dv.skip(i as int).drop_first() =~= dv.skip(i as int + 1));
        }
        let c = classify_line(profile, line, &mut state);
        match c {
            LineClass::Blank => blank = blank + 1,
            LineClass::Comment => comment = comment + 1,
            LineClass::Code => code = code + 1,
        }
        i = i + 1;
    }
    proof {
        assert(dv.skip(n as int) =~= Seq::<Seq<u8>>::empty());
        lemma_line_coverage(p, dv, start_state());
    }
    FileStats { files: 1, blank_lines: blank, comment_lines: comment, code_lines: code }
}

} // verus!
