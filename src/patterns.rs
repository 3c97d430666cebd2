//! The two text patterns of the field extractor, matched by the `regex` crate
//! with its leftmost-first, greedy semantics:
//!
//! - `\(([0-9]+)\)`: a parenthesized run of decimal digits, in a title;
//! - `([0-9]*-[0-9]*-[0-9]*)`: three digit runs joined by hyphens, in a
//!   filing-information blurb.

use crate::text::is_digit;
use regex::Regex;
use vstd::prelude::*;

verus! {

/// The number of consecutive ASCII digits of `s` from position `i` on.
pub open spec fn digit_run_len(s: Seq<char>, i: int) -> nat
    decreases s.len() - i,
{
    if 0 <= i < s.len() && is_digit(s[i]) {
        1 + digit_run_len(s, i + 1)
    } else {
        0
    }
}

/// Where a match of `[0-9]*-[0-9]*-[0-9]*` that starts at `i` ends, if one
/// starts there. Each digit run can only stop before a hyphen by taking all
/// the digits there are, so the match at a given start is unique.
pub open spec fn dash_match_end(s: Seq<char>, i: int) -> Option<int> {
    let a = i + digit_run_len(s, i);
    if a < s.len() && s[a] == '-' {
        let b = a + 1 + digit_run_len(s, a + 1);
        if b < s.len() && s[b] == '-' {
            Some(b + 1 + digit_run_len(s, b + 1))
        } else {
            None
        }
    } else {
        None
    }
}

/// The successive non-overlapping leftmost matches of
/// `[0-9]*-[0-9]*-[0-9]*` in `s`, searching from position `i`.
pub open spec fn dash_runs_from(s: Seq<char>, i: int) -> Seq<Seq<char>>
    decreases s.len() - i
    via dash_runs_from_decreases

{
    if i < 0 || i >= s.len() {
        seq![]
    } else {
        match dash_match_end(s, i) {
            Some(e) => seq![s.subrange(i, e)] + dash_runs_from(s, e),
            None => dash_runs_from(s, i + 1),
        }
    }
}

proof fn lemma_digit_run_len_bound(s: Seq<char>, i: int)
    requires
        0 <= i <= s.len(),
    ensures
        i + digit_run_len(s, i) <= s.len(),
    decreases s.len() - i,
{
    if i < s.len() {
        lemma_digit_run_len_bound(s, i + 1);
    }
}

#[via_fn]
proof fn dash_runs_from_decreases(s: Seq<char>, i: int) {
    if 0 <= i < s.len() {
        lemma_digit_run_len_bound(s, i);
        let a = i + digit_run_len(s, i);
        if a < s.len() {
            lemma_digit_run_len_bound(s, a + 1);
            let b = a + 1 + digit_run_len(s, a + 1);
            if b < s.len() {
                lemma_digit_run_len_bound(s, b + 1);
            }
        }
    }
}

/// The digits captured by a match of `\(([0-9]+)\)` that starts at `i`.
pub open spec fn paren_digits_at(s: Seq<char>, i: int) -> Option<Seq<char>> {
    let n = digit_run_len(s, i + 1);
    if 0 <= i && i + 1 + n < s.len() && s[i] == '(' && n > 0 && s[i + 1 + n] == ')' {
        Some(s.subrange(i + 1, i + 1 + n))
    } else {
        None
    }
}

/// The digits captured by the leftmost match of `\(([0-9]+)\)` in `s` at or
/// after position `i`.
pub open spec fn first_paren_digits(s: Seq<char>, i: int) -> Option<Seq<char>>
    decreases s.len() - i,
{
    if i < 0 || i >= s.len() {
        None
    } else if paren_digits_at(s, i) is Some {
        paren_digits_at(s, i)
    } else {
        first_paren_digits(s, i + 1)
    }
}

/// Relies on `regex::Regex::new` and `regex::Regex::captures`: the capture
/// group of the leftmost match of `\(([0-9]+)\)`, if any. The pattern is
/// valid, so compiling it does not fail.
#[verifier::external_body]
pub(crate) fn paren_digits(s: &str) -> (r: Option<String>)
    ensures
        match first_paren_digits(s@, 0) {
            Some(d) => r is Some && r->0@ == d,
            None => r is None,
        },
{
    let re = Regex::new(r"\(([0-9]+)\)").unwrap();
    re.captures(s).map(|c| c[1].to_owned())
}

/// Relies on `regex::Regex::new` and `regex::Regex::captures_iter`: the
/// capture group of each successive non-overlapping match of
/// `([0-9]*-[0-9]*-[0-9]*)`, in order. The pattern is valid, so compiling it
/// does not fail.
#[verifier::external_body]
pub(crate) fn dash_runs(s: &str) -> (r: Vec<String>)
    ensures
        r@.map_values(|x: String| x@) == dash_runs_from(s@, 0),
{
    let re = Regex::new(r"([0-9]*-[0-9]*-[0-9]*)").unwrap();
    re.captures_iter(s).map(|c| c[1].to_owned()).collect()
}

} // verus!
