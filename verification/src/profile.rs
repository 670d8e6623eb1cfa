//! Language profiles: the comment-syntax description for one language.

use vstd::prelude::*;

verus! {

/// Mathematical model of a profile: token lists as byte sequences.
#[verifier::ext_equal]
pub ghost struct ProfileModel {
    pub name: Seq<char>,
    pub extensions: Seq<Seq<u8>>,
    pub line_comments: Seq<Seq<u8>>,
    pub block_starts: Seq<Seq<u8>>,
    pub block_ends: Seq<Seq<u8>>,
}

/// The comment syntax of one language: its name, the file extensions mapped to
/// it, its line-comment prefixes, and its block-comment delimiter pairs
/// (`block_starts[i]` is closed by `block_ends[i]`).
pub struct LanguageProfile {
    pub name: String,
    pub extensions: Vec<Vec<u8>>,
    pub line_comments: Vec<Vec<u8>>,
    pub block_starts: Vec<Vec<u8>>,
    pub block_ends: Vec<Vec<u8>>,
}

impl View for LanguageProfile {
    type V = ProfileModel;

    open spec fn view(&self) -> ProfileModel {
        ProfileModel {
            name: self.name@,
            extensions: self.extensions.deep_view(),
            line_comments: self.line_comments.deep_view(),
            block_starts: self.block_starts.deep_view(),
            block_ends: self.block_ends.deep_view(),
        }
    }
}

/// Well-formedness: every block start has its end at the same index, tokens
/// are non-empty, and the start tokens are pairwise distinct.
pub open spec fn profile_wf(p: ProfileModel) -> bool {
    &&& p.block_starts.len() == p.block_ends.len()
    &&& forall|i: int| 0 <= i < p.line_comments.len() ==> (#[trigger] p.line_comments[i]).len() > 0
    &&& forall|i: int| 0 <= i < p.block_starts.len() ==> (#[trigger] p.block_starts[i]).len() > 0
    &&& forall|i: int| 0 <= i < p.block_ends.len() ==> (#[trigger] p.block_ends[i]).len() > 0
    &&& forall|i: int, j: int|
        0 <= i < j < p.block_starts.len() ==> p.block_starts[i] != p.block_starts[j]
}

} // verus!
