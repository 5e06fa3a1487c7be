//! String matching: exact equality, and the case-insensitive ASCII
//! matching used on environment values.
//!
//! Environment values such as the session type or the current desktop name
//! are matched against fixed ASCII words without regard to case. The
//! comparison folds only the ASCII letters `A`..`Z`; all other characters,
//! including non-ASCII ones, must match exactly.

use vstd::prelude::*;

verus! {

/// The code point of `c` with an ASCII capital letter folded to its small
/// form; any other code point is left as it is.
pub open spec fn lower_code(c: int) -> int {
    if 65 <= c <= 90 {
        c + 32
    } else {
        c
    }
}

/// `a` and `b` are equal once ASCII capitals are folded.
pub open spec fn chars_eq_ignore_ascii_case(a: Seq<char>, b: Seq<char>) -> bool {
    &&& a.len() == b.len()
    &&& forall|i: int|
        0 <= i < a.len() ==> lower_code(a[i] as int) == lower_code(b[i] as int)
}

/// `needle` occurs in `hay` at offset `k`, ignoring ASCII case.
pub open spec fn matches_at_ignore_ascii_case(hay: Seq<char>, needle: Seq<char>, k: int) -> bool {
    &&& 0 <= k
    &&& k + needle.len() <= hay.len()
    &&& chars_eq_ignore_ascii_case(hay.subrange(k, k + needle.len()), needle)
}

/// `needle` occurs somewhere in `hay`, ignoring ASCII case.
pub open spec fn contains_ignore_ascii_case(hay: Seq<char>, needle: Seq<char>) -> bool {
    exists|k: int| matches_at_ignore_ascii_case(hay, needle, k)
}

/// The folded code point of a character, as an executable step.
fn lower_code_of(c: char) -> (r: u32)
    ensures
        r == lower_code(c as int),
{
    let u = c as u32;
    if 65 <= u && u <= 90 {
        u + 32
    } else {
        u
    }
}

/// Whether `a` and `b` hold exactly the same characters.
pub fn str_eq(a: &str, b: &str) -> (r: bool)
    ensures
        r == (a@ == b@),
{
    let an = a.unicode_len();
    let bn = b.unicode_len();
    if an != bn {
        return false;
    }
    let mut i: usize = 0;
    while i < an
        invariant
            an == a@.len(),
            bn == b@.len(),
            an == bn,
            i <= an,
            forall|j: int| 0 <= j < i ==> a@[j] == b@[j],
        decreases an - i,
    {
        if a.get_char(i) != b.get_char(i) {
            assert(a@[i as int] != b@[i as int]);
            return false;
        }
        i = i + 1;
    }
    assert(a@ =~= b@);
    true
}

/// Whether `a` and `b` are equal ignoring ASCII case.
pub fn eq_ignore_ascii_case(a: &str, b: &str) -> (r: bool)
    ensures
        r == chars_eq_ignore_ascii_case(a@, b@),
{
    let an = a.unicode_len();
    let bn = b.unicode_len();
    if an != bn {
        return false;
    }
    let mut i: usize = 0;
    while i < an
        invariant
            an == a@.len(),
            bn == b@.len(),
            an == bn,
            i <= an,
            forall|j: int| 0 <= j < i ==> lower_code(a@[j] as int) == lower_code(b@[j] as int),
        decreases an - i,
    {
        let ca = a.get_char(i);
        let cb = b.get_char(i);
        if lower_code_of(ca) != lower_code_of(cb) {
            assert(lower_code(a@[i as int] as int) != lower_code(b@[i as int] as int));
            return false;
        }
        i = i + 1;
    }
    true
}

/// Whether the characters of `hay` starting at `k` spell `needle`, ignoring
/// ASCII case. `k + needle length` must stay within `hay`.
fn matches_at(hay: &str, needle: &str, k: usize) -> (r: bool)
    requires
        k + needle@.len() <= hay@.len(),
        hay@.len() <= usize::MAX,
    ensures
        r == matches_at_ignore_ascii_case(hay@, needle@, k as int),
{
    let n = needle.unicode_len();
    let mut j: usize = 0;
    while j < n
        invariant
            n == needle@.len(),
            k + n <= hay@.len(),
            hay@.len() <= usize::MAX,
            j <= n,
            forall|t: int|
                0 <= t < j ==> lower_code(hay@[k + t] as int) == lower_code(needle@[t] as int),
        decreases n - j,
    {
        let ch = hay.get_char(k + j);
        let cn = needle.get_char(j);
        if lower_code_of(ch) != lower_code_of(cn) {
            assert(!matches_at_ignore_ascii_case(hay@, needle@, k as int)) by {
                assert(lower_code(hay@[k + j] as int) != lower_code(needle@[j as int] as int));
                assert(hay@.subrange(k as int, k + needle@.len())[j as int] == hay@[k + j]);
            }
            return false;
        }
        j = j + 1;
    }
    assert(matches_at_ignore_ascii_case(hay@, needle@, k as int)) by {
        let sub = hay@.subrange(k as int, k + needle@.len());
        assert(forall|t: int|
            0 <= t < needle@.len() ==> lower_code(#[trigger] sub[t] as int) == lower_code(
                needle@[t] as int,
            )) by {
            assert(forall|t: int| 0 <= t < needle@.len() ==> sub[t] == hay@[k + t]);
        }
    }
    true
}

/// Whether `needle` occurs anywhere in `hay`, ignoring ASCII case.
pub fn contains_ignore_ascii_case_str(hay: &str, needle: &str) -> (r: bool)
    ensures
        r == contains_ignore_ascii_case(hay@, needle@),
{
    let hn = hay.unicode_len();
    let nn = needle.unicode_len();
    if nn > hn {
        assert(!contains_ignore_ascii_case(hay@, needle@));
        return false;
    }
    let mut k: usize = 0;
    while k <= hn - nn
        invariant
            hn == hay@.len(),
            nn == needle@.len(),
            nn <= hn,
            k <= hn - nn + 1,
            forall|t: int| 0 <= t < k ==> !matches_at_ignore_ascii_case(hay@, needle@, t),
        decreases hn - nn - k + 1,
    {
        if matches_at(hay, needle, k) {
            assert(contains_ignore_ascii_case(hay@, needle@));
            return true;
        }
        k = k + 1;
    }
    assert(forall|t: int| !matches_at_ignore_ascii_case(hay@, needle@, t));
    false
}

} // verus!
