//! URL detection inside plain text.
//!
//! A URL is a substring that starts with `http://` or `https://` and runs
//! greedily to the end of its whitespace-delimited token. Matches are taken
//! non-overlapping, left to right, in order of first occurrence, and are not
//! de-duplicated. The whole grammar is specified here and the scanner is
//! verified against it.

use vstd::prelude::*;
use vstd::string::StrSliceExecFns;
use vstd::string::StringExecFns;

use crate::types::strs_view;

verus! {

/// A whitespace character: the Unicode `White_Space` set, the boundary the
/// scanner's tokens and [`trim_of`] both go by.
pub open spec fn is_space(c: char) -> bool {
    let u = c as u32;
    u == 0x09 || u == 0x0A || u == 0x0B || u == 0x0C || u == 0x0D || u == 0x20 || u == 0x85
        || u == 0xA0 || u == 0x1680 || (0x2000 <= u && u <= 0x200A) || u == 0x2028
        || u == 0x2029 || u == 0x202F || u == 0x205F || u == 0x3000
}

/// Decide [`is_space`] executably.
pub fn is_space_char(c: char) -> (r: bool)
    ensures
        r == is_space(c),
{
    let u = c as u32;
    u == 0x09 || u == 0x0A || u == 0x0B || u == 0x0C || u == 0x0D || u == 0x20 || u == 0x85
        || u == 0xA0 || u == 0x1680 || (0x2000 <= u && u <= 0x200A) || u == 0x2028
        || u == 0x2029 || u == 0x202F || u == 0x205F || u == 0x3000
}

/// `http://` stands at position `i` of `s`.
pub open spec fn http_prefix_at(s: Seq<char>, i: int) -> bool {
    &&& i + 7 <= s.len()
    &&& s[i] == 'h'
    &&& s[i + 1] == 't'
    &&& s[i + 2] == 't'
    &&& s[i + 3] == 'p'
    &&& s[i + 4] == ':'
    &&& s[i + 5] == '/'
    &&& s[i + 6] == '/'
}

/// `https://` stands at position `i` of `s`. At one position at most one of
/// the two prefixes can match: they differ at their fifth character.
pub open spec fn https_prefix_at(s: Seq<char>, i: int) -> bool {
    &&& i + 8 <= s.len()
    &&& s[i] == 'h'
    &&& s[i + 1] == 't'
    &&& s[i + 2] == 't'
    &&& s[i + 3] == 'p'
    &&& s[i + 4] == 's'
    &&& s[i + 5] == ':'
    &&& s[i + 6] == '/'
    &&& s[i + 7] == '/'
}

/// Length of the scheme prefix found at `i`.
pub open spec fn scheme_len_at(s: Seq<char>, i: int) -> int {
    if https_prefix_at(s, i) {
        8
    } else {
        7
    }
}

/// A match begins at `i`: a scheme prefix followed by at least one
/// non-whitespace character.
pub open spec fn match_starts_at(s: Seq<char>, i: int) -> bool {
    &&& http_prefix_at(s, i) || https_prefix_at(s, i)
    &&& i + scheme_len_at(s, i) < s.len()
    &&& !is_space(s[i + scheme_len_at(s, i)])
}

/// First position at or after `i` that ends the current run of
/// non-whitespace characters: the index of the next whitespace character, or
/// the end of `s`.
pub open spec fn token_end(s: Seq<char>, i: int) -> int
    decreases s.len() - i
        when 0 <= i <= s.len()
{
    if i >= s.len() || is_space(s[i]) {
        i
    } else {
        token_end(s, i + 1)
    }
}

pub proof fn lemma_token_end_bounds(s: Seq<char>, i: int)
    requires
        0 <= i <= s.len(),
    ensures
        i <= token_end(s, i) <= s.len(),
        forall|j: int| i <= j < token_end(s, i) ==> !is_space(s[j]),
        token_end(s, i) < s.len() ==> is_space(s[token_end(s, i)]),
    decreases s.len() - i,
{
    if i < s.len() && !is_space(s[i]) {
        lemma_token_end_bounds(s, i + 1);
    }
}

/// The URL matches of `s` from position `i` on: at the leftmost match start,
/// the match runs greedily to the end of its token and scanning resumes
/// there, so matches never overlap.
pub open spec fn url_matches_from(s: Seq<char>, i: int) -> Seq<Seq<char>>
    decreases s.len() - i
        when 0 <= i <= s.len()
        via url_matches_from_dec
{
    if i >= s.len() {
        Seq::empty()
    } else if match_starts_at(s, i) {
        seq![s.subrange(i, token_end(s, i))] + url_matches_from(s, token_end(s, i))
    } else {
        url_matches_from(s, i + 1)
    }
}

#[via_fn]
proof fn url_matches_from_dec(s: Seq<char>, i: int) {
    if 0 <= i < s.len() && match_starts_at(s, i) {
        assert(!is_space(s[i]));
        lemma_token_end_bounds(s, i + 1);
        assert(token_end(s, i) == token_end(s, i + 1));
    }
}

/// All URL matches of `s`, in order of first occurrence.
pub open spec fn url_matches(s: Seq<char>) -> Seq<Seq<char>> {
    url_matches_from(s, 0)
}

/// First index at or after `i` holding a non-whitespace character, or the end
/// of `s`.
pub open spec fn trim_start_idx(s: Seq<char>, i: int) -> int
    decreases s.len() - i
        when 0 <= i <= s.len()
{
    if i >= s.len() || !is_space(s[i]) {
        i
    } else {
        trim_start_idx(s, i + 1)
    }
}

/// Last position at or before `j` such that the character just before it is
/// non-whitespace, or zero.
pub open spec fn trim_end_idx(s: Seq<char>, j: int) -> int
    decreases j
        when 0 <= j <= s.len()
{
    if j <= 0 || !is_space(s[j - 1]) {
        j
    } else {
        trim_end_idx(s, j - 1)
    }
}

/// `s` with leading and trailing whitespace removed; empty when `s` is
/// whitespace throughout.
pub open spec fn trim_of(s: Seq<char>) -> Seq<char> {
    let a = trim_start_idx(s, 0);
    let b = trim_end_idx(s, s.len() as int);
    if a <= b {
        s.subrange(a, b)
    } else {
        Seq::empty()
    }
}

/// Decide whether a match starts at position `i` of `text`.
fn match_start_exec(text: &str, i: usize, n: usize) -> (r: bool)
    requires
        n == text@.len(),
        i < n,
    ensures
        r == match_starts_at(text@, i as int),
{
    let long = n - i >= 8 && text.get_char(i) == 'h' && text.get_char(i + 1) == 't'
        && text.get_char(i + 2) == 't' && text.get_char(i + 3) == 'p'
        && text.get_char(i + 4) == 's' && text.get_char(i + 5) == ':'
        && text.get_char(i + 6) == '/' && text.get_char(i + 7) == '/';
    if long {
        return n - i >= 9 && !is_space_char(text.get_char(i + 8));
    }
    let short = n - i >= 7 && text.get_char(i) == 'h' && text.get_char(i + 1) == 't'
        && text.get_char(i + 2) == 't' && text.get_char(i + 3) == 'p'
        && text.get_char(i + 4) == ':' && text.get_char(i + 5) == '/'
        && text.get_char(i + 6) == '/';
    if short {
        return n - i >= 8 && !is_space_char(text.get_char(i + 7));
    }
    false
}

/// Find [`token_end`] executably.
fn token_end_exec(text: &str, i: usize, n: usize) -> (e: usize)
    requires
        n == text@.len(),
        i <= n,
    ensures
        e as int == token_end(text@, i as int),
        i <= e <= n,
{
    let mut j: usize = i;
    while j < n && !is_space_char(text.get_char(j))
        invariant
            n == text@.len(),
            i <= j <= n,
            token_end(text@, i as int) == token_end(text@, j as int),
        decreases n - j,
    {
        j = j + 1;
    }
    j
}

/// Scan `text` for URLs: every `http://` or `https://` token, greedily to the
/// next whitespace, non-overlapping, left to right, duplicates kept.
pub fn detect_urls(text: &str) -> (urls: Vec<String>)
    ensures
        strs_view(urls@) == url_matches(text@),
{
    let n = text.unicode_len();
    let mut urls: Vec<String> = Vec::new();
    let mut i: usize = 0;
    proof {
        assert(strs_view(urls@) + url_matches_from(text@, 0) =~= url_matches(text@));
    }
    while i < n
        invariant
            n == text@.len(),
            i <= n,
            strs_view(urls@) + url_matches_from(text@, i as int) =~= url_matches(text@),
        decreases n - i,
    {
        if match_start_exec(text, i, n) {
            let e = token_end_exec(text, i, n);
            proof {
                assert(!is_space(text@[i as int]));
                lemma_token_end_bounds(text@, i as int + 1);
                assert(token_end(text@, i as int) == token_end(text@, i as int + 1));
            }
            let ghost prev = urls@;
            let u = String::from_str(text.substring_char(i, e));
            urls.push(u);
            proof {
                assert(strs_view(urls@) =~= strs_view(prev) + seq![text@.subrange(
                    i as int,
                    e as int,
                )]);
                assert(strs_view(urls@) + url_matches_from(text@, e as int) =~= url_matches(
                    text@,
                ));
            }
            i = e;
        } else {
            i = i + 1;
        }
    }
    proof {
        assert(strs_view(urls@) =~= url_matches(text@));
    }
    urls
}

/// First index of a non-whitespace character of `text`, or its length.
fn trim_start_exec(text: &str, n: usize) -> (a: usize)
    requires
        n == text@.len(),
    ensures
        a as int == trim_start_idx(text@, 0),
        a <= n,
{
    let mut a: usize = 0;
    while a < n && is_space_char(text.get_char(a))
        invariant
            n == text@.len(),
            a <= n,
            trim_start_idx(text@, 0) == trim_start_idx(text@, a as int),
        decreases n - a,
    {
        a = a + 1;
    }
    a
}

/// One past the last non-whitespace character of `text`, or zero.
fn trim_end_exec(text: &str, n: usize) -> (b: usize)
    requires
        n == text@.len(),
    ensures
        b as int == trim_end_idx(text@, n as int),
        b <= n,
{
    let mut b: usize = n;
    while b > 0 && is_space_char(text.get_char(b - 1))
        invariant
            n == text@.len(),
            b <= n,
            trim_end_idx(text@, n as int) == trim_end_idx(text@, b as int),
        decreases b,
    {
        b = b - 1;
    }
    b
}

/// Decide whether `text`, trimmed of surrounding whitespace, equals `other`.
pub fn trimmed_eq(text: &str, other: &String) -> (r: bool)
    ensures
        r == (trim_of(text@) == other@),
{
    let n = text.unicode_len();
    let a = trim_start_exec(text, n);
    let b = trim_end_exec(text, n);
    if a <= b {
        let sub = String::from_str(text.substring_char(a, b));
        sub == *other
    } else {
        let r = other.as_str().unicode_len() == 0;
        proof {
            if other@.len() == 0 {
                assert(trim_of(text@) =~= other@);
            } else {
                assert(trim_of(text@).len() == 0);
            }
        }
        r
    }
}

} // verus!
