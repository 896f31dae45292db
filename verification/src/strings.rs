//! Verified string helpers: substring search, prefix and suffix tests,
//! and whitespace trimming, stated over the character sequences of the
//! strings involved.

use vstd::prelude::*;
use vstd::string::StrSliceExecFns;

verus! {

/// The pattern occurs in `s` at position `i`.
pub open spec fn spec_match_at(s: Seq<char>, pat: Seq<char>, i: int) -> bool {
    0 <= i && i + pat.len() <= s.len() && s.subrange(i, i + pat.len() as int) == pat
}

/// The first position at or after `from` where the pattern occurs, if
/// any.
pub open spec fn spec_find(s: Seq<char>, pat: Seq<char>, from: int) -> Option<int>
    decreases s.len() - from + 1,
{
    if from < 0 || from + pat.len() > s.len() {
        None
    } else if spec_match_at(s, pat, from) {
        Some(from)
    } else {
        spec_find(s, pat, from + 1)
    }
}

/// `s` starts with `pat`.
pub open spec fn spec_starts_with(s: Seq<char>, pat: Seq<char>) -> bool {
    spec_match_at(s, pat, 0)
}

/// `s` ends with `pat`.
pub open spec fn spec_ends_with(s: Seq<char>, pat: Seq<char>) -> bool {
    spec_match_at(s, pat, s.len() - pat.len())
}

/// The Unicode whitespace characters that trimming removes.
pub open spec fn is_space(c: char) -> bool {
    ||| c == '\u{0009}'
    ||| c == '\u{000A}'
    ||| c == '\u{000B}'
    ||| c == '\u{000C}'
    ||| c == '\u{000D}'
    ||| c == ' '
    ||| c == '\u{0085}'
    ||| c == '\u{00A0}'
    ||| c == '\u{1680}'
    ||| c == '\u{2000}'
    ||| c == '\u{2001}'
    ||| c == '\u{2002}'
    ||| c == '\u{2003}'
    ||| c == '\u{2004}'
    ||| c == '\u{2005}'
    ||| c == '\u{2006}'
    ||| c == '\u{2007}'
    ||| c == '\u{2008}'
    ||| c == '\u{2009}'
    ||| c == '\u{200A}'
    ||| c == '\u{2028}'
    ||| c == '\u{2029}'
    ||| c == '\u{202F}'
    ||| c == '\u{205F}'
    ||| c == '\u{3000}'
}

/// How many whitespace characters `s` starts with.
pub open spec fn spec_leading_spaces(s: Seq<char>) -> int
    decreases s.len(),
{
    if s.len() == 0 || !is_space(s[0]) {
        0
    } else {
        1 + spec_leading_spaces(s.subrange(1, s.len() as int))
    }
}

/// The position just after the last non-whitespace character of `s`.
pub open spec fn spec_trailing_end(s: Seq<char>) -> int
    decreases s.len(),
{
    if s.len() == 0 || !is_space(s[s.len() - 1]) {
        s.len() as int
    } else {
        spec_trailing_end(s.subrange(0, s.len() - 1))
    }
}

/// `s` with leading and trailing whitespace removed.
pub open spec fn spec_trim(s: Seq<char>) -> Seq<char> {
    let a = spec_leading_spaces(s);
    let b = spec_trailing_end(s);
    if a <= b {
        s.subrange(a, b)
    } else {
        Seq::empty()
    }
}

proof fn lemma_leading_spaces_unique(s: Seq<char>, a: int)
    requires
        0 <= a <= s.len(),
        forall|i: int| 0 <= i < a ==> is_space(s[i]),
        a == s.len() || !is_space(s[a]),
    ensures
        spec_leading_spaces(s) == a,
    decreases a,
{
    if a == 0 {
    } else {
        assert(is_space(s[0]));
        let t = s.subrange(1, s.len() as int);
        assert(forall|i: int| 0 <= i < a - 1 ==> s[i + 1] == t[i] && is_space(#[trigger] t[i]));
        if a < s.len() {
            assert(t[a - 1] == s[a]);
        }
        lemma_leading_spaces_unique(t, a - 1);
    }
}

proof fn lemma_trailing_end_unique(s: Seq<char>, b: int)
    requires
        0 <= b <= s.len(),
        forall|i: int| b <= i < s.len() ==> is_space(s[i]),
        b == 0 || !is_space(s[b - 1]),
    ensures
        spec_trailing_end(s) == b,
    decreases s.len() - b,
{
    if b == s.len() {
    } else {
        assert(is_space(s[s.len() - 1]));
        let t = s.subrange(0, s.len() - 1);
        assert(forall|i: int| b <= i < t.len() ==> t[i] == s[i] && is_space(#[trigger] t[i]));
        if b > 0 {
            assert(t[b - 1] == s[b - 1]);
        }
        lemma_trailing_end_unique(t, b);
    }
}

/// The number of characters of `s`.
pub fn str_len(s: &str) -> (r: usize)
    ensures
        r == s@.len(),
{
    s.unicode_len()
}

/// Whether the pattern occurs in `s` at position `i`.
fn match_at(s: &str, pat: &str, i: usize, s_len: usize, pat_len: usize) -> (r: bool)
    requires
        s_len == s@.len(),
        pat_len == pat@.len(),
        i + pat_len <= s_len,
    ensures
        r == spec_match_at(s@, pat@, i as int),
{
    let mut j: usize = 0;
    while j < pat_len
        invariant
            s_len == s@.len(),
            pat_len == pat@.len(),
            i + pat_len <= s_len,
            j <= pat_len,
            forall|j2: int| 0 <= j2 < j ==> s@[i + j2] == pat@[j2],
        decreases pat_len - j,
    {
        if s.get_char(i + j) != pat.get_char(j) {
            assert(s@.subrange(i as int, i + pat@.len() as int)[j as int] != pat@[j as int]);
            return false;
        }
        j = j + 1;
    }
    proof {
        assert(s@.subrange(i as int, i + pat@.len() as int) =~= pat@);
    }
    true
}

/// The first position at or after `from` where `pat` occurs in `s`.
pub fn find_sub(s: &str, pat: &str, from: usize) -> (r: Option<usize>)
    ensures
        match r {
            Some(i) => from <= i && i + pat@.len() <= s@.len() && spec_match_at(
                s@,
                pat@,
                i as int,
            ) && spec_find(s@, pat@, from as int) == Some(i as int),
            None => spec_find(s@, pat@, from as int) is None,
        },
{
    let s_len = s.unicode_len();
    let pat_len = pat.unicode_len();
    if pat_len > s_len {
        return None;
    }
    if pat_len == 0 {
        if from <= s_len {
            proof {
                assert(s@.subrange(from as int, from as int) =~= pat@);
            }
            return Some(from);
        } else {
            return None;
        }
    }
    let mut i: usize = from;
    while i <= s_len - pat_len
        invariant
            s_len == s@.len(),
            pat_len == pat@.len(),
            1 <= pat_len <= s_len,
            from <= i,
            spec_find(s@, pat@, from as int) == spec_find(s@, pat@, i as int),
        decreases s_len - i,
    {
        if match_at(s, pat, i, s_len, pat_len) {
            return Some(i);
        }
        i = i + 1;
    }
    None
}

/// `s` starts with `pat`.
pub fn starts_with(s: &str, pat: &str) -> (r: bool)
    ensures
        r == spec_starts_with(s@, pat@),
{
    let s_len = s.unicode_len();
    let pat_len = pat.unicode_len();
    if pat_len > s_len {
        return false;
    }
    match_at(s, pat, 0, s_len, pat_len)
}

/// `s` ends with `pat`.
pub fn ends_with(s: &str, pat: &str) -> (r: bool)
    ensures
        r == spec_ends_with(s@, pat@),
{
    let s_len = s.unicode_len();
    let pat_len = pat.unicode_len();
    if pat_len > s_len {
        return false;
    }
    match_at(s, pat, s_len - pat_len, s_len, pat_len)
}

/// `pat` occurs somewhere in `s`.
pub fn contains_sub(s: &str, pat: &str) -> (r: bool)
    ensures
        r == (spec_find(s@, pat@, 0) is Some),
{
    match find_sub(s, pat, 0) {
        Some(_) => true,
        None => false,
    }
}

/// The characters of `s` from `a` (inclusive) to `b` (exclusive), as an
/// owned string.
pub fn substring(s: &str, a: usize, b: usize) -> (r: String)
    requires
        a <= b <= s@.len(),
    ensures
        r@ == s@.subrange(a as int, b as int),
{
    let piece = s.substring_char(a, b);
    piece.to_owned()
}

/// Whether the character of `s` at `i` is whitespace.
fn space_at(s: &str, i: usize) -> (r: bool)
    requires
        i < s@.len(),
    ensures
        r == is_space(s@[i as int]),
{
    let c = s.get_char(i);
    c == '\u{0009}' || c == '\u{000A}' || c == '\u{000B}' || c == '\u{000C}' || c == '\u{000D}'
        || c == ' ' || c == '\u{0085}' || c == '\u{00A0}' || c == '\u{1680}' || c == '\u{2000}'
        || c == '\u{2001}' || c == '\u{2002}' || c == '\u{2003}' || c == '\u{2004}' || c
        == '\u{2005}' || c == '\u{2006}' || c == '\u{2007}' || c == '\u{2008}' || c == '\u{2009}'
        || c == '\u{200A}' || c == '\u{2028}' || c == '\u{2029}' || c == '\u{202F}' || c
        == '\u{205F}' || c == '\u{3000}'
}

/// `s` with leading and trailing Unicode whitespace removed.
pub fn trim(s: &str) -> (r: String)
    ensures
        r@ == spec_trim(s@),
{
    let s_len = s.unicode_len();
    let mut a: usize = 0;
    while a < s_len && space_at(s, a)
        invariant
            s_len == s@.len(),
            a <= s_len,
            forall|i: int| 0 <= i < a ==> is_space(s@[i]),
        decreases s_len - a,
    {
        a = a + 1;
    }
    let mut b: usize = s_len;
    while b > a && space_at(s, b - 1)
        invariant
            s_len == s@.len(),
            a <= b <= s_len,
            forall|i: int| 0 <= i < a ==> is_space(s@[i]),
            a == s_len || !is_space(s@[a as int]),
            forall|i: int| b <= i < s_len ==> is_space(s@[i]),
        decreases b,
    {
        b = b - 1;
    }
    proof {
        lemma_leading_spaces_unique(s@, a as int);
        if b > a {
            lemma_trailing_end_unique(s@, b as int);
        } else {
            if (a as int) == s@.len() {
                lemma_trailing_end_unique(s@, 0);
            } else {
                assert(is_space(s@[a as int]));
                assert(false);
            }
        }
        assert(spec_trim(s@) =~= s@.subrange(a as int, b as int));
    }
    substring(s, a, b)
}

/// `s` with every trailing copy of `pat` removed.
pub open spec fn spec_trim_end_matches(s: Seq<char>, pat: Seq<char>) -> Seq<char>
    decreases s.len(),
{
    if pat.len() > 0 && spec_ends_with(s, pat) {
        spec_trim_end_matches(s.subrange(0, s.len() - pat.len()), pat)
    } else {
        s
    }
}

/// `s` with every trailing copy of `pat` removed.
pub fn trim_end_matches(s: &str, pat: &str) -> (r: String)
    ensures
        r@ == spec_trim_end_matches(s@, pat@),
{
    let pat_len = str_len(pat);
    let mut cur: String = s.to_owned();
    let mut cur_len = str_len(s);
    while pat_len > 0 && ends_with(cur.as_str(), pat)
        invariant
            cur_len == cur@.len(),
            pat_len == pat@.len(),
            spec_trim_end_matches(cur@, pat@) == spec_trim_end_matches(s@, pat@),
        decreases cur@.len(),
    {
        cur = substring(cur.as_str(), 0, cur_len - pat_len);
        cur_len = cur_len - pat_len;
    }
    cur
}

} // verus!
