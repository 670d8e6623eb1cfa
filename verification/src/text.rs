//! Byte-level text helpers: whitespace tests, ASCII lowering, and first-match
//! substring search, each with an exact specification.
//!
//! Text is modelled as raw bytes. Whitespace is the Unicode white-space set,
//! recognized through its UTF-8 encodings (see `ws_unit_at`). Letter case is
//! the ASCII notion only: a byte at or above 128 is never lowered.

use vstd::prelude::*;
use vstd::string::StrSliceExecFns;

verus! {

/// ASCII whitespace: space, tab, line feed, vertical tab, form feed, carriage
/// return — the single-byte whitespace units.
pub open spec fn is_space(b: u8) -> bool {
    b == 32 || (9 <= b && b <= 13)
}

/// The length (1, 2 or 3) of the UTF-8 encoding of a Unicode white-space
/// character starting at `i` and ending by `hi`, or 0 when none starts
/// there. Beyond ASCII these are: next line, no-break space, ogham space
/// mark, the en-quad through hair-space range, line separator, paragraph
/// separator, narrow no-break space, medium mathematical space, and
/// ideographic space.
pub open spec fn ws_unit_at(s: Seq<u8>, i: int, hi: int) -> int {
    if i < hi && is_space(s[i]) {
        1
    } else if i + 2 <= hi && s[i] == 0xc2 && (s[i + 1] == 0x85 || s[i + 1] == 0xa0) {
        2
    } else if i + 3 <= hi && s[i] == 0xe1 && s[i + 1] == 0x9a && s[i + 2] == 0x80 {
        3
    } else if i + 3 <= hi && s[i] == 0xe2 && s[i + 1] == 0x80 && ((0x80 <= s[i + 2] && s[i + 2]
        <= 0x8a) || s[i + 2] == 0xa8 || s[i + 2] == 0xa9 || s[i + 2] == 0xaf) {
        3
    } else if i + 3 <= hi && s[i] == 0xe2 && s[i + 1] == 0x81 && s[i + 2] == 0x9f {
        3
    } else if i + 3 <= hi && s[i] == 0xe3 && s[i + 1] == 0x80 && s[i + 2] == 0x80 {
        3
    } else {
        0
    }
}

/// The bytes `s[lo..hi]` are entirely white space: they decompose, left to
/// right, into white-space units. (No unit is a prefix of another, so the
/// decomposition is unique.)
pub open spec fn all_ws_range(s: Seq<u8>, lo: int, hi: int) -> bool
    decreases hi - lo,
{
    if lo >= hi {
        true
    } else {
        let u = ws_unit_at(s, lo, hi);
        if u > 0 {
            all_ws_range(s, lo + u, hi)
        } else {
            false
        }
    }
}

/// `s[lo..hi]` holds something besides white space.
pub open spec fn has_nonws(s: Seq<u8>, lo: int, hi: int) -> bool {
    !all_ws_range(s, lo, hi)
}

/// The token `tok` occurs in `s` starting at position `i`.
pub open spec fn matches_at(s: Seq<u8>, tok: Seq<u8>, i: int) -> bool {
    &&& 0 <= i
    &&& i + tok.len() <= s.len()
    &&& forall|j: int| 0 <= j < tok.len() ==> s[i + j] == #[trigger] tok[j]
}

/// The first position at or after `i` where `tok` occurs in `s`, if any.
pub open spec fn find_from(s: Seq<u8>, tok: Seq<u8>, i: int) -> Option<int>
    decreases s.len() - i,
{
    if i + tok.len() > s.len() {
        None
    } else if matches_at(s, tok, i) {
        Some(i)
    } else {
        find_from(s, tok, i + 1)
    }
}

/// `find_from` returns the least match position at or after `i`, and `None`
/// exactly when no match exists there.
pub proof fn lemma_find_from(s: Seq<u8>, tok: Seq<u8>, i: int)
    requires
        0 <= i,
    ensures
        match find_from(s, tok, i) {
            Some(p) => i <= p && matches_at(s, tok, p) && forall|j: int|
                i <= j < p ==> !matches_at(s, tok, j),
            None => forall|j: int| i <= j ==> !matches_at(s, tok, j),
        },
    decreases s.len() - i,
{
    if i + tok.len() > s.len() {
        assert(forall|j: int| i <= j ==> !(#[trigger] matches_at(s, tok, j)));
    } else if matches_at(s, tok, i) {
    } else {
        lemma_find_from(s, tok, i + 1);
    }
}

/// The lower-case image of one byte: ASCII letters are lowered, every other
/// byte — non-ASCII letters included — is kept as it is.
pub open spec fn lower_byte(b: u8) -> u8 {
    if 65 <= b && b <= 90 {
        (b + 32) as u8
    } else {
        b
    }
}

/// The byte sequence lowered byte by byte.
pub open spec fn lower(s: Seq<u8>) -> Seq<u8> {
    Seq::new(s.len(), |i: int| lower_byte(s[i]))
}

/// The bytes of an ASCII character sequence, one byte per character.
pub open spec fn ascii_bytes(s: Seq<char>) -> Seq<u8> {
    Seq::new(s.len(), |i: int| s[i] as u8)
}

/// The bytes of an ASCII string, as a vector.
pub fn str_bytes(s: &str) -> (r: Vec<u8>)
    requires
        s.is_ascii(),
    ensures
        r@ == ascii_bytes(s@),
{
    let r = s.as_bytes_vec();
    proof {
        vstd::string::is_ascii_spec_bytes(s);
        assert(r@ =~= ascii_bytes(s@));
    }
    r
}

/// Byte-vector equality, decided in one pass.
pub fn bytes_eq(a: &Vec<u8>, b: &Vec<u8>) -> (r: bool)
    ensures
        r == (a@ == b@),
{
    if a.len() != b.len() {
        return false;
    }
    let n = a.len();
    let mut i: usize = 0;
    while i < n
        invariant
            n == a@.len() == b@.len(),
            0 <= i <= n,
            forall|j: int| 0 <= j < i ==> a@[j] == b@[j],
        decreases n - i,
    {
        if a[i] != b[i] {
            return false;
        }
        i = i + 1;
    }
    proof {
        assert(a@ =~= b@);
    }
    true
}

/// Lowers every byte of a vector.
pub fn to_lower(s: &Vec<u8>) -> (r: Vec<u8>)
    ensures
        r@ == lower(s@),
{
    let n = s.len();
    let mut r: Vec<u8> = Vec::new();
    let mut i: usize = 0;
    while i < n
        invariant
            n == s@.len(),
            0 <= i <= n,
            r@.len() == i,
            forall|j: int| 0 <= j < i ==> r@[j] == lower_byte(s@[j]),
        decreases n - i,
    {
        let b = s[i];
        if 65 <= b && b <= 90 {
            r.push(b + 32);
        } else {
            r.push(b);
        }
        i = i + 1;
    }
    proof {
        assert(r@ =~= lower(s@));
    }
    r
}

/// A fresh vector with the same bytes.
pub fn copy_bytes(s: &Vec<u8>) -> (r: Vec<u8>)
    ensures
        r@ == s@,
{
    let n = s.len();
    let mut r: Vec<u8> = Vec::new();
    let mut i: usize = 0;
    while i < n
        invariant
            n == s@.len(),
            0 <= i <= n,
            r@.len() == i,
            forall|j: int| 0 <= j < i ==> r@[j] == s@[j],
        decreases n - i,
    {
        r.push(s[i]);
        i = i + 1;
    }
    proof {
        assert(r@ =~= s@);
    }
    r
}

/// Whether `tok` occurs in `s` starting exactly at `p`.
fn token_at(s: &Vec<u8>, tok: &Vec<u8>, p: usize) -> (r: bool)
    requires
        p + tok@.len() <= s@.len(),
    ensures
        r == matches_at(s@, tok@, p as int),
{
    let n = tok.len();
    let sn = s.len();
    let mut j: usize = 0;
    while j < n
        invariant
            n == tok@.len(),
            sn == s@.len(),
            p + n <= sn,
            0 <= j <= n,
            forall|k: int| 0 <= k < j ==> s@[p + k] == tok@[k],
        decreases n - j,
    {
        if s[p + j] != tok[j] {
            return false;
        }
        j = j + 1;
    }
    true
}

/// First occurrence of `tok` in `s` at or after `from`; the executable face of
/// `find_from`.
pub fn find_token(s: &Vec<u8>, tok: &Vec<u8>, from: usize) -> (r: Option<usize>)
    requires
        from <= s@.len(),
        tok@.len() >= 1,
    ensures
        match r {
            Some(p) => from <= p && find_from(s@, tok@, from as int) == Some(p as int),
            None => find_from(s@, tok@, from as int) is None,
        },
{
    let n = s.len();
    let m = tok.len();
    if m > n {
        proof {
            assert(find_from(s@, tok@, from as int) is None);
        }
        return None;
    }
    let last = n - m;
    let mut p = from;
    while p <= last
        invariant
            n == s@.len(),
            m == tok@.len(),
            m >= 1,
            last == n - m,
            from <= p <= n,
            find_from(s@, tok@, from as int) == find_from(s@, tok@, p as int),
        decreases n - p,
    {
        if token_at(s, tok, p) {
            assert(find_from(s@, tok@, p as int) == Some(p as int));
            return Some(p);
        }
        proof {
            assert(find_from(s@, tok@, p as int) == find_from(s@, tok@, p as int + 1));
        }
        p = p + 1;
    }
    proof {
        assert(find_from(s@, tok@, p as int) is None);
    }
    None
}

/// Whether `s[lo..hi]` holds anything besides white space, scanning the
/// white-space units greedily from the left.
pub fn contains_nonws(s: &Vec<u8>, lo: usize, hi: usize) -> (r: bool)
    requires
        lo <= hi <= s@.len(),
    ensures
        r == has_nonws(s@, lo as int, hi as int),
{
    let mut i = lo;
    while i < hi
        invariant
            lo <= i <= hi <= s@.len(),
            all_ws_range(s@, i as int, hi as int) == all_ws_range(s@, lo as int, hi as int),
        decreases hi - i,
    {
        let b = s[i];
        let u: usize = if b == 32 || (9 <= b && b <= 13) {
            1
        } else if b == 0xc2 && hi - i >= 2 && (s[i + 1] == 0x85 || s[i + 1] == 0xa0) {
            2
        } else if b == 0xe1 && hi - i >= 3 && s[i + 1] == 0x9a && s[i + 2] == 0x80 {
            3
        } else if b == 0xe2 && hi - i >= 3 && s[i + 1] == 0x80 && ((0x80 <= s[i + 2]
            && s[i + 2] <= 0x8a) || s[i + 2] == 0xa8 || s[i + 2] == 0xa9 || s[i + 2] == 0xaf) {
            3
        } else if b == 0xe2 && hi - i >= 3 && s[i + 1] == 0x81 && s[i + 2] == 0x9f {
            3
        } else if b == 0xe3 && hi - i >= 3 && s[i + 1] == 0x80 && s[i + 2] == 0x80 {
            3
        } else {
            0
        };
        proof {
            assert(u as int == ws_unit_at(s@, i as int, hi as int));
        }
        if u == 0 {
            proof {
                assert(!all_ws_range(s@, i as int, hi as int));
            }
            return true;
        }
        proof {
            assert(all_ws_range(s@, i as int, hi as int) == all_ws_range(
                s@,
                i as int + u,
                hi as int,
            ));
        }
        i = i + u;
    }
    proof {
        assert(all_ws_range(s@, i as int, hi as int));
    }
    false
}

} // verus!
