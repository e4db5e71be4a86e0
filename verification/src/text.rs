//! Verified text primitives: scanning, substring containment, trimming,
//! line splitting, and the street-address test that drives the field
//! cycler's record-start decision.

use vstd::prelude::*;
use vstd::string::*;
use crate::chars::{is_space, is_dec_digit, space_char, dec_digit_char};

verus! {

// ---------------------------------------------------------------------------
// Index scans
// ---------------------------------------------------------------------------

/// Index of the first character at or after `from` that is not whitespace,
/// or `s.len()` if every remaining character is whitespace.
pub open spec fn next_non_space(s: Seq<char>, from: int) -> int
    decreases s.len() - from,
{
    if from < 0 || from >= s.len() {
        s.len() as int
    } else if !is_space(s[from]) {
        from
    } else {
        next_non_space(s, from + 1)
    }
}

/// Index of the first whitespace character at or after `from`, or `s.len()`.
pub open spec fn next_space(s: Seq<char>, from: int) -> int
    decreases s.len() - from,
{
    if from < 0 || from >= s.len() {
        s.len() as int
    } else if is_space(s[from]) {
        from
    } else {
        next_space(s, from + 1)
    }
}

/// Index of the first `'\n'` at or after `from`, or `s.len()`.
pub open spec fn find_newline(s: Seq<char>, from: int) -> int
    decreases s.len() - from,
{
    if from < 0 || from >= s.len() {
        s.len() as int
    } else if s[from] == '\n' {
        from
    } else {
        find_newline(s, from + 1)
    }
}

/// `find_newline` lands exactly on the first `'\n'` of the scanned range.
pub proof fn lemma_find_newline_is(s: Seq<char>, from: int, j: int)
    requires
        0 <= from <= j <= s.len(),
        forall|k: int| from <= k < j ==> s[k] != '\n',
        j == s.len() || s[j] == '\n',
    ensures
        find_newline(s, from) == j,
    decreases j - from,
{
    if from < j {
        lemma_find_newline_is(s, from + 1, j);
    }
}

/// Bounds and defining properties of `find_newline`.
pub proof fn lemma_find_newline_props(s: Seq<char>, from: int)
    requires
        0 <= from <= s.len(),
    ensures
        from <= find_newline(s, from) <= s.len(),
        forall|k: int| from <= k < find_newline(s, from) ==> s[k] != '\n',
        find_newline(s, from) < s.len() ==> s[find_newline(s, from)] == '\n',
    decreases s.len() - from,
{
    if from < s.len() && s[from] != '\n' {
        lemma_find_newline_props(s, from + 1);
    }
}

// ---------------------------------------------------------------------------
// Substring containment
// ---------------------------------------------------------------------------

/// `needle` occurs in `hay` as a contiguous run of characters.
pub open spec fn contains_seq(hay: Seq<char>, needle: Seq<char>) -> bool {
    exists|i: int|
        0 <= i <= hay.len() - needle.len() && #[trigger] hay.subrange(i, i + needle.len())
            == needle
}

/// Whether `needle` stands in `hay` starting exactly at index `at`.
fn match_at(hay: &str, needle: &str, at: usize) -> (r: bool)
    requires
        at + needle@.len() <= hay@.len(),
    ensures
        r == (hay@.subrange(at as int, at + needle@.len()) == needle@),
{
    let hl = hay.unicode_len();
    let n = needle.unicode_len();
    let mut k: usize = 0;
    while k < n
        invariant
            hl == hay@.len(),
            n == needle@.len(),
            at + n <= hl,
            0 <= k <= n,
            forall|t: int| 0 <= t < k ==> hay@[at + t] == needle@[t],
        decreases n - k,
    {
        if hay.get_char(at + k) != needle.get_char(k) {
            proof {
                assert(hay@.subrange(at as int, at + needle@.len())[k as int]
                    == hay@[at + k]);
            }
            return false;
        }
        k += 1;
    }
    proof {
        assert(hay@.subrange(at as int, at + needle@.len()) =~= needle@);
    }
    true
}

/// Runtime test for [`contains_seq`].
pub fn contains_str(hay: &str, needle: &str) -> (r: bool)
    ensures
        r == contains_seq(hay@, needle@),
{
    let h = hay.unicode_len();
    let n = needle.unicode_len();
    if n > h {
        return false;
    }
    if n == 0 {
        proof {
            assert(hay@.subrange(0, 0 + needle@.len() as int) =~= needle@);
        }
        return true;
    }
    let mut i: usize = 0;
    while i <= h - n
        invariant
            h == hay@.len(),
            n == needle@.len(),
            1 <= n <= h,
            0 <= i <= h - n + 1,
            forall|j: int| 0 <= j < i ==> #[trigger] hay@.subrange(j, j + n) != needle@,
        decreases h - n + 1 - i,
    {
        if match_at(hay, needle, i) {
            return true;
        }
        i += 1;
    }
    false
}

// ---------------------------------------------------------------------------
// Trimming
// ---------------------------------------------------------------------------

/// One past the last non-whitespace character of `s`, or `0` if `s` is
/// whitespace throughout.
pub open spec fn last_non_space_end(s: Seq<char>) -> int
    decreases s.len(),
{
    if s.len() == 0 {
        0
    } else if !is_space(s[s.len() - 1]) {
        s.len() as int
    } else {
        last_non_space_end(s.drop_last())
    }
}

/// `s` with leading and trailing whitespace removed.
pub open spec fn trim_spec(s: Seq<char>) -> Seq<char> {
    let a = next_non_space(s, 0);
    let b = last_non_space_end(s);
    if a < b {
        s.subrange(a, b)
    } else {
        Seq::empty()
    }
}

/// Runtime trimming, the counterpart of [`trim_spec`].
pub fn trim_str(s: &str) -> (r: String)
    ensures
        r@ == trim_spec(s@),
{
    let len = s.unicode_len();
    let mut a: usize = 0;
    while a < len && space_char(s.get_char(a))
        invariant
            len == s@.len(),
            0 <= a <= len,
            next_non_space(s@, 0) == next_non_space(s@, a as int),
        decreases len - a,
    {
        a += 1;
    }
    proof {
        assert(next_non_space(s@, 0) == a as int);
    }
    let mut b: usize = len;
    proof {
        assert(s@.subrange(0, len as int) =~= s@);
    }
    while b > 0 && space_char(s.get_char(b - 1))
        invariant
            len == s@.len(),
            0 <= b <= len,
            last_non_space_end(s@) == last_non_space_end(s@.subrange(0, b as int)),
        decreases b,
    {
        proof {
            assert(s@.subrange(0, b as int).drop_last() =~= s@.subrange(0, b as int - 1));
            assert(s@.subrange(0, b as int)[b as int - 1] == s@[b as int - 1]);
        }
        b -= 1;
    }
    proof {
        if b == 0 {
            assert(last_non_space_end(s@.subrange(0, 0)) == 0);
        } else {
            assert(s@.subrange(0, b as int)[b as int - 1] == s@[b as int - 1]);
        }
        assert(last_non_space_end(s@) == b as int);
    }
    if a < b {
        String::from_str(s.substring_char(a, b))
    } else {
        String::new()
    }
}

// ---------------------------------------------------------------------------
// Line splitting
// ---------------------------------------------------------------------------

/// `s` split on `'\n'`.  Splitting never yields an empty list: a text with
/// no newline is one line, and each newline separates two (possibly empty)
/// lines.
pub open spec fn split_lines(s: Seq<char>) -> Seq<Seq<char>>
    decreases s.len(),
    via split_lines_dec
{
    let i = find_newline(s, 0);
    if i >= s.len() {
        seq![s]
    } else {
        seq![s.subrange(0, i)] + split_lines(s.subrange(i + 1, s.len() as int))
    }
}

#[via_fn]
proof fn split_lines_dec(s: Seq<char>) {
    lemma_find_newline_props(s, 0);
}

/// Runtime line splitting, the counterpart of [`split_lines`].
pub fn split_newlines(s: &str) -> (r: Vec<String>)
    ensures
        r.deep_view() == split_lines(s@),
{
    let len = s.unicode_len();
    let mut out: Vec<String> = Vec::new();
    let mut start: usize = 0;
    let mut i: usize = 0;
    proof {
        assert(s@.subrange(0, len as int) =~= s@);
        assert(out.deep_view() + split_lines(s@) =~= split_lines(s@));
    }
    while i < len
        invariant
            len == s@.len(),
            0 <= start <= i <= len,
            forall|k: int| start <= k < i ==> s@[k] != '\n',
            split_lines(s@) == out.deep_view() + split_lines(
                s@.subrange(start as int, len as int),
            ),
        decreases len - i,
    {
        if s.get_char(i) == '\n' {
            let line = String::from_str(s.substring_char(start, i));
            proof {
                let sub = s@.subrange(start as int, len as int);
                assert(forall|k: int|
                    0 <= k < i - start ==> sub[k] == s@[start + k] && sub[k] != '\n');
                assert(sub[i - start] == s@[i as int]);
                lemma_find_newline_is(sub, 0, i - start);
                assert(sub.subrange(0, i - start) =~= s@.subrange(start as int, i as int));
                assert(sub.subrange(i - start + 1, sub.len() as int) =~= s@.subrange(
                    i + 1,
                    len as int,
                ));
                assert(line@ == sub.subrange(0, i - start));
            }
            out.push(line);
            proof {
                assert(split_lines(s@) =~= out.deep_view() + split_lines(
                    s@.subrange(i + 1, len as int),
                ));
            }
            start = i + 1;
        }
        i += 1;
    }
    let line = String::from_str(s.substring_char(start, len));
    proof {
        let sub = s@.subrange(start as int, len as int);
        assert(forall|k: int| 0 <= k < sub.len() ==> sub[k] == s@[start + k] && sub[k] != '\n');
        lemma_find_newline_is(sub, 0, sub.len() as int);
        assert(split_lines(sub) == seq![sub]);
    }
    out.push(line);
    proof {
        assert(split_lines(s@) =~= out.deep_view());
    }
    out
}

// ---------------------------------------------------------------------------
// The street-address test
// ---------------------------------------------------------------------------

/// A token is a street address when, split on whitespace, its first piece
/// consists entirely of decimal digits and at least one further piece
/// follows.  This is the structural test that tells an address line from a
/// county name at the start of a record.
pub open spec fn is_street_spec(s: Seq<char>) -> bool {
    let a = next_non_space(s, 0);
    let b = next_space(s, a);
    let c = next_non_space(s, b);
    a < s.len() && (forall|k: int| a <= k < b ==> is_dec_digit(s[k])) && c < s.len()
}

/// Runtime test for [`is_street_spec`].
pub fn is_street_address(segment: &str) -> (r: bool)
    ensures
        r == is_street_spec(segment@),
{
    let len = segment.unicode_len();
    let mut a: usize = 0;
    while a < len && space_char(segment.get_char(a))
        invariant
            len == segment@.len(),
            0 <= a <= len,
            next_non_space(segment@, 0) == next_non_space(segment@, a as int),
        decreases len - a,
    {
        a += 1;
    }
    proof {
        assert(next_non_space(segment@, 0) == a as int);
    }
    if a == len {
        return false;
    }
    let mut b: usize = a;
    let mut all_digits = true;
    while b < len && !space_char(segment.get_char(b))
        invariant
            len == segment@.len(),
            a <= b <= len,
            next_space(segment@, a as int) == next_space(segment@, b as int),
            all_digits ==> forall|k: int| a <= k < b ==> is_dec_digit(segment@[k]),
            !all_digits ==> exists|k: int| a <= k < b && !is_dec_digit(segment@[k]),
        decreases len - b,
    {
        if !dec_digit_char(segment.get_char(b)) {
            all_digits = false;
        }
        b += 1;
    }
    proof {
        assert(next_space(segment@, a as int) == b as int);
    }
    let mut c: usize = b;
    while c < len && space_char(segment.get_char(c))
        invariant
            len == segment@.len(),
            b <= c <= len,
            next_non_space(segment@, b as int) == next_non_space(segment@, c as int),
        decreases len - c,
    {
        c += 1;
    }
    proof {
        assert(next_non_space(segment@, b as int) == c as int);
    }
    all_digits && c < len
}

} // verus!
