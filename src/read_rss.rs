//! The entry assembler and its field extractor: from the fragments of a feed
//! to the list of new filing records.

use crate::errors::{Failure, ScrapeError};
use crate::markup::{entry_fragments, feed_fragments, markup_events};
use crate::patterns::{dash_runs, dash_runs_from, first_paren_digits, paren_digits};
use crate::sec_entry::{classify, entry_of, views, EntryView, FilingType, SECEntry};
use crate::store::AccessionStore;
use crate::text::{
    char_position, find_char, find_separator, number_of, parse_number, separator_at_or_after,
    texts, trim_bounds, trimmed,
};
use vstd::prelude::*;

verus! {

/// The fields of an entry title `"<type> - <company> (<key>) (<role>)"`: the
/// filing-type token before the first `" - "`; the company name, which is the
/// text after that separator and before the next separator and the first `(`,
/// trimmed; and the key, the first parenthesized digit run of the title.
pub open spec fn title_fields(t: Seq<char>) -> Option<(Seq<char>, Seq<char>, usize)> {
    match find_separator(t, 0) {
        None => None,
        Some(i) => {
            let end = match find_separator(t, i + 3) {
                Some(j) => j,
                None => t.len() as int,
            };
            let name = trimmed(t.subrange(i + 3, find_char(t, '(', i + 3, end)));
            match first_paren_digits(t, 0) {
                None => None,
                Some(d) => match number_of(d) {
                    None => None,
                    Some(cik) => Some((t.subrange(0, i), name, cik)),
                },
            }
        },
    }
}

/// The filing date and accession number of a filing-information blurb: the
/// first two runs `digits-digits-digits`, each read as an integer once its
/// hyphens are removed.
pub open spec fn filing_fields(s: Seq<char>) -> Option<(usize, usize)> {
    let runs = dash_runs_from(s, 0);
    if runs.len() >= 2 {
        match (number_of(runs[0]), number_of(runs[1])) {
            (Some(date), Some(acc)) => Some((date, acc)),
            _ => None,
        }
    } else {
        None
    }
}

/// Parses an entry title into its filing-type token, company name and key.
pub fn clean_title<'a>(input: Option<&'a String>) -> (r: Result<(&'a str, &'a str, usize), ScrapeError>)
    ensures
        match input {
            None => r is Err && r->Err_0@ == Failure::TitleFormat(Seq::empty()),
            Some(t) => match title_fields(t@) {
                Some(f) => r is Ok && r->Ok_0.0@ == f.0 && r->Ok_0.1@ == f.1 && r->Ok_0.2 == f.2,
                None => r is Err && r->Err_0@ == Failure::TitleFormat(t@),
            },
        },
{
    let t = match input {
        Some(t) => t.as_str(),
        None => return Err(ScrapeError::TitleFormat(String::new())),
    };
    let sep = match separator_at_or_after(t, 0) {
        Some(i) => i,
        None => return Err(ScrapeError::TitleFormat(t.to_owned())),
    };
    let n = t.unicode_len();
    let end = match separator_at_or_after(t, sep + 3) {
        Some(j) => j,
        None => n,
    };
    let paren = char_position(t, '(', sep + 3, end);
    let (lo, hi) = trim_bounds(t, sep + 3, paren);
    let digits = match paren_digits(t) {
        Some(d) => d,
        None => return Err(ScrapeError::TitleFormat(t.to_owned())),
    };
    let cik = match parse_number(digits.as_str()) {
        Some(c) => c,
        None => return Err(ScrapeError::TitleFormat(t.to_owned())),
    };
    let r = (t.substring_char(0, sep), t.substring_char(lo, hi), cik);
    assert(title_fields(t@) == Some((r.0@, r.1@, r.2)));
    Ok(r)
}

/// Parses a filing-information blurb into its filing date (`YYYYMMDD`) and
/// accession number.
pub fn clean_filing(input: Option<&String>) -> (r: Result<(usize, usize), ScrapeError>)
    ensures
        match input {
            None => r is Err && r->Err_0@ == Failure::FilingInfoFormat(Seq::empty()),
            Some(f) => match filing_fields(f@) {
                Some(v) => r == Ok::<(usize, usize), ScrapeError>(v),
                None => r is Err && r->Err_0@ == Failure::FilingInfoFormat(f@),
            },
        },
{
    let f = match input {
        Some(f) => f.as_str(),
        None => return Err(ScrapeError::FilingInfoFormat(String::new())),
    };
    let runs = dash_runs(f);
    proof {
        assert(runs@.map_values(|x: String| x@).len() == runs@.len());
    }
    if runs.len() < 2 {
        return Err(ScrapeError::FilingInfoFormat(f.to_owned()));
    }
    proof {
        assert(runs@.map_values(|x: String| x@)[0] == runs@[0]@);
        assert(runs@.map_values(|x: String| x@)[1] == runs@[1]@);
    }
    let date = match parse_number(runs[0].as_str()) {
        Some(d) => d,
        None => return Err(ScrapeError::FilingInfoFormat(f.to_owned())),
    };
    let acc = match parse_number(runs[1].as_str()) {
        Some(a) => a,
        None => return Err(ScrapeError::FilingInfoFormat(f.to_owned())),
    };
    Ok((date, acc))
}

/// Checks that a timestamp fragment is present and not empty.
pub fn clean_timestamp(input: Option<&String>) -> (r: Result<&String, ScrapeError>)
    ensures
        match input {
            Some(x) if x@.len() > 0 => r is Ok && r->Ok_0 == x,
            _ => r is Err && r->Err_0@ == Failure::MissingTimestamp(Seq::empty()),
        },
{
    match input {
        Some(x) => {
            if x.as_str().unicode_len() > 0 {
                Ok(x)
            } else {
                Err(ScrapeError::MissingTimestamp(String::new()))
            }
        },
        None => Err(ScrapeError::MissingTimestamp(String::new())),
    }
}

/// Moves a fragment cursor that stands just after a title past the other
/// three fragments of its entry.
pub fn ignore_filing(cursor: &mut usize)
    requires
        *old(cursor) <= usize::MAX - 3,
    ensures
        *final(cursor) == *old(cursor) + 3,
{
    *cursor = *cursor + 3;
}

/// Number of fragments of one feed entry: title, filing information,
/// timestamp and an unused tag.
pub const NUM_ENTRY_ELEMENTS: usize = 4;

/// One entry (title, filing information, timestamp) applied to the records
/// so far and the accession numbers seen so far. An entry whose type is
/// ignored is skipped before its other fragments are read; an entry whose
/// accession number was seen is dropped; any other entry adds its record and
/// its accession number.
pub open spec fn window_step(
    title: Seq<char>,
    info: Seq<char>,
    stamp: Seq<char>,
    ignore: Seq<FilingType>,
    records: Seq<EntryView>,
    seen: Set<usize>,
) -> (Result<Seq<EntryView>, Failure>, Set<usize>) {
    match title_fields(title) {
        None => (Err(Failure::TitleFormat(title)), seen),
        Some((token, name, cik)) => match classify(token) {
            None => (Err(Failure::Classification(token)), seen),
            Some(t) => if ignore.contains(t) {
                (Ok(records), seen)
            } else {
                match filing_fields(info) {
                    None => (Err(Failure::FilingInfoFormat(info)), seen),
                    Some((date, acc)) => if stamp.len() == 0 {
                        (Err(Failure::MissingTimestamp(Seq::empty())), seen)
                    } else if seen.contains(acc) {
                        (Ok(records), seen)
                    } else {
                        (Ok(records.push(entry_of(t, name, cik, acc, date, stamp))), seen.insert(acc))
                    },
                }
            },
        },
    }
}

/// The outcome of the first `k` entries of `frags`, and the accession numbers
/// seen once they are processed; the first failure ends the batch.
pub open spec fn assemble_windows(
    frags: Seq<Seq<char>>,
    ignore: Seq<FilingType>,
    seen: Set<usize>,
    k: nat,
) -> (Result<Seq<EntryView>, Failure>, Set<usize>)
    decreases k,
{
    if k == 0 {
        (Ok(Seq::empty()), seen)
    } else {
        let prev = assemble_windows(frags, ignore, seen, (k - 1) as nat);
        match prev.0 {
            Err(_) => prev,
            Ok(records) => {
                let base = 4 * (k - 1);
                window_step(frags[base], frags[base + 1], frags[base + 2], ignore, records, prev.1)
            },
        }
    }
}

/// The records that a batch of fragments yields against the accession
/// numbers `seen` before it, and the accession numbers seen after it.
pub open spec fn assemble(frags: Seq<Seq<char>>, ignore: Seq<FilingType>, seen: Set<usize>) -> (
    Result<Seq<EntryView>, Failure>,
    Set<usize>,
) {
    if frags.len() % 4 != 0 {
        (Err(Failure::MalformedFeed(frags.len())), seen)
    } else {
        assemble_windows(frags, ignore, seen, frags.len() / 4)
    }
}

/// Once a batch has failed, later entries change nothing.
pub proof fn lemma_failure_persists(
    frags: Seq<Seq<char>>,
    ignore: Seq<FilingType>,
    seen: Set<usize>,
    k: nat,
    n: nat,
)
    requires
        k <= n,
        assemble_windows(frags, ignore, seen, k).0 is Err,
    ensures
        assemble_windows(frags, ignore, seen, n) == assemble_windows(frags, ignore, seen, k),
    decreases n - k,
{
    if k < n {
        lemma_failure_persists(frags, ignore, seen, k, (n - 1) as nat);
    }
}

fn contains_type(v: &Vec<FilingType>, t: FilingType) -> (r: bool)
    ensures
        r == v@.contains(t),
{
    let mut i: usize = 0;
    while i < v.len()
        invariant
            i <= v.len(),
            forall|k: int| 0 <= k < i ==> v@[k] != t,
        decreases v.len() - i,
    {
        if v[i] == t {
            proof {
                assert(v@[i as int] == t);
            }
            return true;
        }
        i = i + 1;
    }
    false
}

/// Turns the fragments of a feed, four per entry, into the records of the
/// entries whose type is not ignored and whose accession number `store` has
/// not recorded yet, recording each of those numbers. Stops at the first
/// entry that does not parse; the numbers recorded before it stay recorded.
pub fn clean_xml(xml: Vec<String>, ignore: Vec<FilingType>, store: &mut AccessionStore) -> (r: Result<
    Vec<SECEntry>,
    ScrapeError,
>)
    ensures
        final(store)@ == assemble(texts(xml@), ignore@, old(store)@).1,
        match assemble(texts(xml@), ignore@, old(store)@).0 {
            Ok(records) => r is Ok && views(r->Ok_0@) == records,
            Err(f) => r is Err && r->Err_0@ == f,
        },
{
    let n = xml.len();
    let ghost frags = texts(xml@);
    let ghost start = store@;
    if n % NUM_ENTRY_ELEMENTS != 0 {
        return Err(ScrapeError::MalformedFeed(n));
    }
    let ghost windows: nat = (n / 4) as nat;
    let mut entries: Vec<SECEntry> = Vec::new();
    let mut cursor: usize = 0;
    let ghost mut k: nat = 0;
    proof {
        assert(views(entries@) =~= Seq::<EntryView>::empty());
    }
    while cursor < n
        invariant
            n == xml.len(),
            n == 4 * windows,
            cursor == 4 * k,
            k <= windows,
            frags == texts(xml@),
            frags.len() == n,
            start == old(store)@,
            assemble(frags, ignore@, start) == assemble_windows(frags, ignore@, start, windows),
            assemble_windows(frags, ignore@, start, k) == (
            Ok::<Seq<EntryView>, Failure>(views(entries@)),
            store@,
            ),
        decreases n - cursor,
    {
        let ghost records = views(entries@);
        let ghost before = store@;
        proof {
            assert(frags[cursor as int] == xml@[cursor as int]@);
            assert(frags[cursor + 1] == xml@[cursor + 1]@);
            assert(frags[cursor + 2] == xml@[cursor + 2]@);
            assert(assemble_windows(frags, ignore@, start, k + 1) == window_step(
                frags[cursor as int],
                frags[cursor + 1],
                frags[cursor + 2],
                ignore@,
                records,
                before,
            ));
        }
        let (token, name, cik) = match clean_title(Some(&xml[cursor])) {
            Ok(f) => f,
            Err(e) => {
                proof {
                    lemma_failure_persists(frags, ignore@, start, k + 1, windows);
                }
                return Err(e);
            },
        };
        let filing_type = match FilingType::which(token) {
            Ok(t) => t,
            Err(e) => {
                proof {
                    lemma_failure_persists(frags, ignore@, start, k + 1, windows);
                }
                return Err(e);
            },
        };
        cursor = cursor + 1;
        if contains_type(&ignore, filing_type) {
            ignore_filing(&mut cursor);
        } else {
            let (date, acc) = match clean_filing(Some(&xml[cursor])) {
                Ok(f) => f,
                Err(e) => {
                    proof {
                        lemma_failure_persists(frags, ignore@, start, k + 1, windows);
                    }
                    return Err(e);
                },
            };
            let timestamp = match clean_timestamp(Some(&xml[cursor + 1])) {
                Ok(t) => t,
                Err(e) => {
                    proof {
                        lemma_failure_persists(frags, ignore@, start, k + 1, windows);
                    }
                    return Err(e);
                },
            };
            ignore_filing(&mut cursor);
            if !store.has_accession_number(acc) {
                let entry = SECEntry::new(
                    filing_type,
                    name.to_owned(),
                    cik,
                    acc,
                    date,
                    timestamp.clone(),
                );
                store.write_accession_number(acc);
                entries.push(entry);
                proof {
                    assert(views(entries@) =~= records.push(entry@));
                }
            }
        }
        proof {
            k = k + 1;
        }
    }
    Ok(entries)
}

/// Tokenizes a feed document into the text fragments inside its entries.
pub fn parse_xml(xml: &str) -> (r: Vec<String>)
    ensures
        texts(r@) == feed_fragments(xml@),
{
    let events = markup_events(xml);
    entry_fragments(&events)
}

/// Reads the new filing records out of a feed document: tokenizes it, then
/// assembles the fragments against `store` as `clean_xml` does.
pub fn read_rss(xml: &str, ignore: Vec<FilingType>, store: &mut AccessionStore) -> (r: Result<
    Vec<SECEntry>,
    ScrapeError,
>)
    ensures
        final(store)@ == assemble(feed_fragments(xml@), ignore@, old(store)@).1,
        match assemble(feed_fragments(xml@), ignore@, old(store)@).0 {
            Ok(records) => r is Ok && views(r->Ok_0@) == records,
            Err(f) => r is Err && r->Err_0@ == f,
        },
{
    let fragments = parse_xml(xml);
    clean_xml(fragments, ignore, store)
}

} // verus!
