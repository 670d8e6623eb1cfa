//! The per-line classification state machine.
//!
//! A line is scanned left to right. Inside a block comment the scan looks for
//! the awaited end token; outside it looks for the earliest comment token,
//! with a block start winning a tie against a line-comment token at the same
//! offset. Non-whitespace text outside comments marks the line as code.
//!
//! Lines are byte sequences; blankness and the text-marks-code test use the
//! Unicode white-space set through its UTF-8 encodings (see `crate::text`).

use vstd::prelude::*;

use crate::profile::{LanguageProfile, ProfileModel, profile_wf};
use crate::text::{
    all_ws_range, contains_nonws, find_from, find_token, has_nonws, lemma_find_from, matches_at,
};

verus! {

/// The classification of one physical line.
#[derive(Debug, Clone, Copy, PartialEq, Eq, Structural)]
pub enum LineClass {
    Blank,
    Comment,
    Code,
}

/// Mathematical model of the carried state.
pub ghost struct StateModel {
    pub in_block: bool,
    pub end_token: Seq<u8>,
}

/// Per-file scanning state: outside any block comment, or inside one and
/// awaiting its end token. Created fresh for each file, never shared.
pub struct ClassifierState {
    pub in_block: bool,
    pub end_token: Vec<u8>,
}

impl View for ClassifierState {
    type V = StateModel;

    open spec fn view(&self) -> StateModel {
        StateModel { in_block: self.in_block, end_token: self.end_token@ }
    }
}

/// The state a file starts in: not inside any block comment.
pub open spec fn start_state() -> StateModel {
    StateModel { in_block: false, end_token: Seq::empty() }
}

/// Well-formed state: an awaited end token is non-empty; outside a block the
/// token slot is empty.
pub open spec fn state_wf(st: StateModel) -> bool {
    if st.in_block {
        st.end_token.len() > 0
    } else {
        st.end_token == Seq::<u8>::empty()
    }
}

impl ClassifierState {
    /// A fresh state for a new file.
    pub fn new() -> (r: ClassifierState)
        ensures
            r@ == start_state(),
    {
        ClassifierState { in_block: false, end_token: Vec::new() }
    }
}

/// Among the tokens `toks[k..]`, the earliest match in `s` at or after `from`:
/// its position and its token index, the lowest index winning a tie.
pub open spec fn best_match(s: Seq<u8>, toks: Seq<Seq<u8>>, from: int, k: int) -> Option<(int, int)>
    decreases toks.len() - k,
{
    if k >= toks.len() {
        None
    } else {
        let rest = best_match(s, toks, from, k + 1);
        match find_from(s, toks[k], from) {
            None => rest,
            Some(p) => match rest {
                None => Some((p, k)),
                Some(pr) => if p <= pr.0 {
                    Some((p, k))
                } else {
                    Some(pr)
                },
            },
        }
    }
}

/// What `best_match` returns: a real, earliest match with its index in range,
/// or `None` exactly when no listed token occurs.
pub proof fn lemma_best_match(s: Seq<u8>, toks: Seq<Seq<u8>>, from: int, k: int)
    requires
        0 <= from,
        0 <= k,
    ensures
        match best_match(s, toks, from, k) {
            Some(pr) => {
                &&& k <= pr.1 < toks.len()
                &&& find_from(s, toks[pr.1], from) == Some(pr.0)
                &&& from <= pr.0
                &&& matches_at(s, toks[pr.1], pr.0)
                &&& forall|t: int|
                    k <= t < toks.len() ==> match #[trigger] find_from(s, toks[t], from) {
                        Some(q) => pr.0 <= q,
                        None => true,
                    }
            },
            None => forall|t: int|
                k <= t < toks.len() ==> #[trigger] find_from(s, toks[t], from) is None,
        },
    decreases toks.len() - k,
{
    if k < toks.len() {
        lemma_best_match(s, toks, from, k + 1);
        lemma_find_from(s, toks[k], from);
    }
}

/// One scan of `s` from `pos` under state `st`, `has_code` recording whether
/// code was already seen to the left. Returns the classification and the
/// state carried to the next line.
///
/// Inside a block comment the awaited end token is sought; if absent the rest
/// of the line is comment continuation. Outside, the earliest block start and
/// the earliest line-comment token compete, a block start winning ties. When
/// no token remains, leftover non-whitespace text means code; otherwise
/// everything consumed was comment, so the line is comment. (A line that is
/// whitespace throughout, met outside any block, never reaches the scan:
/// `classify_spec` classifies it blank up front.)
pub open spec fn scan(
    p: ProfileModel,
    s: Seq<u8>,
    pos: int,
    st: StateModel,
    has_code: bool,
) -> (LineClass, StateModel)
    decreases s.len() - pos,
        when 0 <= pos <= s.len() && profile_wf(p) && state_wf(st)
        via scan_decreases
{
    if st.in_block {
        match find_from(s, st.end_token, pos) {
            None => ((if has_code {
                LineClass::Code
            } else {
                LineClass::Comment
            }), st),
            Some(e) => scan(
                p,
                s,
                e + st.end_token.len(),
                StateModel { in_block: false, end_token: Seq::empty() },
                has_code,
            ),
        }
    } else {
        let blk = best_match(s, p.block_starts, pos, 0);
        let lin = best_match(s, p.line_comments, pos, 0);
        match (blk, lin) {
            (Some(bpr), Some(lpr)) => if bpr.0 <= lpr.0 {
                scan(
                    p,
                    s,
                    bpr.0 + p.block_starts[bpr.1].len(),
                    StateModel { in_block: true, end_token: p.block_ends[bpr.1] },
                    has_code || has_nonws(s, pos, bpr.0),
                )
            } else {
                scan_line_comment(s, pos, st, lpr.0, has_code)
            },
            (Some(bpr), None) => scan(
                p,
                s,
                bpr.0 + p.block_starts[bpr.1].len(),
                StateModel { in_block: true, end_token: p.block_ends[bpr.1] },
                has_code || has_nonws(s, pos, bpr.0),
            ),
            (None, Some(lpr)) => scan_line_comment(s, pos, st, lpr.0, has_code),
            (None, None) => {
                let hc = has_code || has_nonws(s, pos, s.len() as int);
                ((if hc {
                    LineClass::Code
                } else {
                    LineClass::Comment
                }), st)
            },
        }
    }
}

/// A line comment at `lp` ends the scan: everything from it is comment, and
/// text before it marks code.
pub open spec fn scan_line_comment(
    s: Seq<u8>,
    pos: int,
    st: StateModel,
    lp: int,
    has_code: bool,
) -> (LineClass, StateModel) {
    let hc = has_code || has_nonws(s, pos, lp);
    ((if hc {
        LineClass::Code
    } else {
        LineClass::Comment
    }), st)
}

#[via_fn]
proof fn scan_decreases(p: ProfileModel, s: Seq<u8>, pos: int, st: StateModel, has_code: bool) {
    if st.in_block {
        lemma_find_from(s, st.end_token, pos);
    } else {
        lemma_best_match(s, p.block_starts, pos, 0);
    }
}

/// The full classification of one line under state `st`: a line that is all
/// whitespace with no block comment open is blank; otherwise the scan
/// decides.
pub open spec fn classify_spec(p: ProfileModel, line: Seq<u8>, st: StateModel) -> (
    LineClass,
    StateModel,
) {
    if !st.in_block && !has_nonws(line, 0, line.len() as int) {
        (LineClass::Blank, st)
    } else {
        scan(p, line, 0, st, false)
    }
}

/// Finds the earliest match among `toks` at or after `from`; the executable
/// face of `best_match`.
pub fn best_token(s: &Vec<u8>, toks: &Vec<Vec<u8>>, from: usize) -> (r: Option<(usize, usize)>)
    requires
        from <= s@.len(),
        forall|i: int| 0 <= i < toks.deep_view().len() ==> (#[trigger] toks.deep_view()[i]).len()
            > 0,
    ensures
        match r {
            Some(pr) => best_match(s@, toks.deep_view(), from as int, 0) == Some(
                (pr.0 as int, pr.1 as int),
            ),
            None => best_match(s@, toks.deep_view(), from as int, 0) is None,
        },
{
    let ghost dv = toks.deep_view();
    let mut best: Option<(usize, usize)> = None;
    let mut k = toks.len();
    proof {
        assert(dv.len() == toks@.len());
        assert(best_match(s@, dv, from as int, k as int) is None);
    }
    while k > 0
        invariant
            dv == toks.deep_view(),
            dv.len() == toks@.len(),
            k <= toks@.len(),
            from <= s@.len(),
            forall|i: int| 0 <= i < dv.len() ==> (#[trigger] dv[i]).len() > 0,
            match best {
                Some(pr) => best_match(s@, dv, from as int, k as int) == Some(
                    (pr.0 as int, pr.1 as int),
                ),
                None => best_match(s@, dv, from as int, k as int) is None,
            },
        decreases k,
    {
        k = k - 1;
        let t = &toks[k];
        proof {
            assert(t@ =~= dv[k as int]);
        }
        let f = find_token(s, t, from);
        best = match (f, best) {
            (None, b) => b,
            (Some(p), None) => Some((p, k)),
            (Some(p), Some(pr)) => if p <= pr.0 {
                Some((p, k))
            } else {
                Some(pr)
            },
        };
        proof {
            assert(best_match(s@, dv, from as int, k as int) == {
                let rest = best_match(s@, dv, from as int, k as int + 1);
                match find_from(s@, dv[k as int], from as int) {
                    None => rest,
                    Some(p) => match rest {
                        None => Some((p, k as int)),
                        Some(pr) => if p <= pr.0 {
                            Some((p, k as int))
                        } else {
                            Some(pr)
                        },
                    },
                }
            });
        }
    }
    best
}

/// Classifies one line under the carried state, advancing the state; the
/// executable face of `classify_spec`.
pub fn classify_line(profile: &LanguageProfile, line: &Vec<u8>, state: &mut ClassifierState) -> (r:
    LineClass)
    requires
        profile_wf(profile@),
        state_wf(old(state)@),
    ensures
        (r, final(state)@) == classify_spec(profile@, line@, old(state)@),
        state_wf(final(state)@),
{
    let ghost p = profile@;
    let ghost st0 = old(state)@;
    let ghost target = classify_spec(p, line@, st0);
    let n = line.len();
    if !state.in_block {
        if !contains_nonws(line, 0, n) {
            return LineClass::Blank;
        }
    }
    proof {
        assert(target == scan(p, line@, 0, st0, false));
    }
    let mut pos: usize = 0;
    let mut has_code = false;
    loop
        invariant
            p == profile@,
            st0 == old(state)@,
            target == classify_spec(p, line@, st0),
            profile_wf(p),
            state_wf(state@),
            n == line@.len(),
            pos <= n,
            scan(p, line@, pos as int, state@, has_code) == target,
        decreases n - pos,
    {
        if state.in_block {
            match find_token(line, &state.end_token, pos) {
                None => {
                    proof {
                        assert(target == ((if has_code {
                            LineClass::Code
                        } else {
                            LineClass::Comment
                        }), state@));
                    }
                    if has_code {
                        return LineClass::Code;
                    } else {
                        return LineClass::Comment;
                    }
                },
                Some(e) => {
                    proof {
                        lemma_find_from(line@, state@.end_token, pos as int);
                    }
                    let tlen = state.end_token.len();
                    let newpos = e + tlen;
                    proof {
                        assert(scan(p, line@, pos as int, state@, has_code) == scan(
                            p,
                            line@,
                            newpos as int,
                            StateModel { in_block: false, end_token: Seq::empty() },
                            has_code,
                        ));
                    }
                    state.in_block = false;
                    state.end_token = Vec::new();
                    pos = newpos;
                },
            }
        } else {
            let blk = best_token(line, &profile.block_starts, pos);
            let lin = best_token(line, &profile.line_comments, pos);
            let use_block = match (blk, lin) {
                (Some(b), Some(l)) => b.0 <= l.0,
                (Some(_), None) => true,
                _ => false,
            };
            if use_block {
                let b = blk.unwrap();
                let bp = b.0;
                let bi = b.1;
                proof {
                    lemma_best_match(line@, p.block_starts, pos as int, 0);
                }
                let nw = contains_nonws(line, pos, bp);
                let start_len = profile.block_starts[bi].len();
                proof {
                    assert(profile.block_starts@[bi as int]@ =~= p.block_starts[bi as int]);
                }
                let newpos = bp + start_len;
                let ghost newst = StateModel {
                    in_block: true,
                    end_token: p.block_ends[bi as int],
                };
                proof {
                    assert(scan(p, line@, pos as int, state@, has_code) == scan(
                        p,
                        line@,
                        newpos as int,
                        newst,
                        has_code || nw,
                    ));
                }
                has_code = has_code || nw;
                state.in_block = true;
                state.end_token = crate::text::copy_bytes(&profile.block_ends[bi]);
                proof {
                    assert(profile.block_ends@[bi as int]@ =~= p.block_ends[bi as int]);
                    assert(state@ == newst);
                }
                pos = newpos;
            } else {
                match lin {
                    Some(l) => {
                        let lp = l.0;
                        proof {
                            lemma_best_match(line@, p.line_comments, pos as int, 0);
                        }
                        let nw = contains_nonws(line, pos, lp);
                        proof {
                            assert(target == scan_line_comment(
                                line@,
                                pos as int,
                                state@,
                                lp as int,
                                has_code,
                            ));
                        }
                        if has_code || nw {
                            return LineClass::Code;
                        } else {
                            return LineClass::Comment;
                        }
                    },
                    None => {
                        let nw = contains_nonws(line, pos, n);
                        proof {
                            assert(target == ((if has_code || nw {
                                LineClass::Code
                            } else {
                                LineClass::Comment
                            }), state@));
                        }
                        if has_code || nw {
                            return LineClass::Code;
                        } else {
                            return LineClass::Comment;
                        }
                    },
                }
            }
        }
    }
}

/// Law: a line of only white space, met outside any open block comment,
/// classifies blank and leaves the state unchanged.
pub proof fn lemma_blank_line(p: ProfileModel, line: Seq<u8>, st: StateModel)
    requires
        !st.in_block,
        all_ws_range(line, 0, line.len() as int),
    ensures
        classify_spec(p, line, st) == (LineClass::Blank, st),
{
    assert(!has_nonws(line, 0, line.len() as int));
}

/// Law: when the earliest block-comment start and the earliest line-comment
/// token sit at the same offset, the block comment wins the tie: the scan
/// opens the block and awaits its end token instead of ending the line as a
/// line comment.
pub proof fn lemma_tie_break_block_wins(
    p: ProfileModel,
    s: Seq<u8>,
    pos: int,
    st: StateModel,
    has_code: bool,
    bpr: (int, int),
    lpr: (int, int),
)
    requires
        0 <= pos <= s.len(),
        profile_wf(p),
        state_wf(st),
        !st.in_block,
        best_match(s, p.block_starts, pos, 0) == Some(bpr),
        best_match(s, p.line_comments, pos, 0) == Some(lpr),
        bpr.0 == lpr.0,
    ensures
        scan(p, s, pos, st, has_code) == scan(
            p,
            s,
            bpr.0 + p.block_starts[bpr.1].len(),
            StateModel { in_block: true, end_token: p.block_ends[bpr.1] },
            has_code || has_nonws(s, pos, bpr.0),
        ),
{
    lemma_best_match(s, p.block_starts, pos, 0);
    lemma_best_match(s, p.line_comments, pos, 0);
}

} // verus!
