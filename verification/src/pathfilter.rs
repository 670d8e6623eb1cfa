//! Filtering of discovered paths: build and cache directories are skipped,
//! as are hidden files and directories.

use vstd::prelude::*;

use crate::text::{ascii_bytes, bytes_eq, lower, str_bytes, to_lower};

verus! {

/// Directory names that are never descended into: build outputs, dependency
/// caches, and tool state.
pub open spec fn is_skip_name(s: Seq<u8>) -> bool {
    ||| s == ascii_bytes("target"@)
    ||| s == ascii_bytes("node_modules"@)
    ||| s == ascii_bytes(".git"@)
    ||| s == ascii_bytes(".svn"@)
    ||| s == ascii_bytes(".hg"@)
    ||| s == ascii_bytes("build"@)
    ||| s == ascii_bytes("dist"@)
    ||| s == ascii_bytes("out"@)
    ||| s == ascii_bytes("bin"@)
    ||| s == ascii_bytes("obj"@)
    ||| s == ascii_bytes(".vs"@)
    ||| s == ascii_bytes(".vscode"@)
    ||| s == ascii_bytes("__pycache__"@)
    ||| s == ascii_bytes(".pytest_cache"@)
    ||| s == ascii_bytes(".mypy_cache"@)
    ||| s == ascii_bytes("vendor"@)
    ||| s == ascii_bytes("deps"@)
    ||| s == ascii_bytes(".idea"@)
    ||| s == ascii_bytes(".gradle"@)
}

/// A path is skipped when some component, lowered in the ASCII sense, is a
/// skip name, or when its file name is hidden: a leading dot followed by at
/// least one more character.
pub open spec fn spec_should_skip(components: Seq<Seq<u8>>, filename: Seq<u8>) -> bool {
    ||| exists|i: int|
        0 <= i < components.len() && is_skip_name(lower(#[trigger] components[i]))
    ||| (filename.len() > 1 && filename[0] == 46)
}

/// Whether `name` is one of the directory names that are never descended
/// into.
pub fn is_skip_dir(name: &Vec<u8>) -> (r: bool)
    ensures
        r == is_skip_name(name@),
{
    proof {
        reveal_strlit("target");
        reveal_strlit("node_modules");
        reveal_strlit(".git");
        reveal_strlit(".svn");
        reveal_strlit(".hg");
        reveal_strlit("build");
        reveal_strlit("dist");
        reveal_strlit("out");
        reveal_strlit("bin");
        reveal_strlit("obj");
        reveal_strlit(".vs");
        reveal_strlit(".vscode");
        reveal_strlit("__pycache__");
        reveal_strlit(".pytest_cache");
        reveal_strlit(".mypy_cache");
        reveal_strlit("vendor");
        reveal_strlit("deps");
        reveal_strlit(".idea");
        reveal_strlit(".gradle");
    }
    bytes_eq(name, &str_bytes("target")) || bytes_eq(name, &str_bytes("node_modules"))
        || bytes_eq(name, &str_bytes(".git")) || bytes_eq(name, &str_bytes(".svn"))
        || bytes_eq(name, &str_bytes(".hg")) || bytes_eq(name, &str_bytes("build"))
        || bytes_eq(name, &str_bytes("dist")) || bytes_eq(name, &str_bytes("out"))
        || bytes_eq(name, &str_bytes("bin")) || bytes_eq(name, &str_bytes("obj"))
        || bytes_eq(name, &str_bytes(".vs")) || bytes_eq(name, &str_bytes(".vscode"))
        || bytes_eq(name, &str_bytes("__pycache__")) || bytes_eq(
        name,
        &str_bytes(".pytest_cache"),
    ) || bytes_eq(name, &str_bytes(".mypy_cache")) || bytes_eq(name, &str_bytes("vendor"))
        || bytes_eq(name, &str_bytes("deps")) || bytes_eq(name, &str_bytes(".idea"))
        || bytes_eq(name, &str_bytes(".gradle"))
}

/// Decides whether a discovered path is skipped, from its components and its
/// file name; the executable face of `spec_should_skip`.
pub fn should_skip(components: &Vec<Vec<u8>>, filename: &Vec<u8>) -> (r: bool)
    ensures
        r == spec_should_skip(components.deep_view(), filename@),
{
    let ghost dv = components.deep_view();
    let n = components.len();
    let mut i: usize = 0;
    while i < n
        invariant
            dv == components.deep_view(),
            dv.len() == n,
            n == components@.len(),
            0 <= i <= n,
            forall|j: int| 0 <= j < i ==> !is_skip_name(lower(#[trigger] dv[j])),
        decreases n - i,
    {
        proof {
            assert(components@[i as int]@ =~= dv[i as int]);
        }
        let low = to_lower(&components[i]);
        if is_skip_dir(&low) {
            return true;
        }
        i = i + 1;
    }
    if filename.len() > 1 {
        if filename[0] == 46 {
            return true;
        }
    }
    false
}

} // verus!
