//! Properties of the assembler that relate several runs or every input.

use crate::errors::Failure;
use crate::read_rss::{
    assemble, assemble_windows, filing_fields, lemma_failure_persists, title_fields, window_step,
};
use crate::sec_entry::{classify, entry_of, EntryView, FilingType};
use vstd::prelude::*;

verus! {

/// The accession numbers of some records.
pub open spec fn accessions(records: Seq<EntryView>) -> Set<usize> {
    records.map_values(|e: EntryView| e.accession_number).to_set()
}

/// A batch whose number of fragments is not a multiple of four fails as
/// malformed, yields no record and records nothing.
pub proof fn law_fragment_count(frags: Seq<Seq<char>>, ignore: Seq<FilingType>, seen: Set<usize>)
    requires
        frags.len() % 4 != 0,
    ensures
        assemble(frags, ignore, seen) == (
        Err::<Seq<EntryView>, Failure>(Failure::MalformedFeed(frags.len())),
        seen,
        ),
{
}

/// An entry that parses, whose type is not ignored and whose accession number
/// was not seen yields exactly one record, made of its parsed fields, and
/// records its accession number.
pub proof fn law_new_entry_yields_one_record(
    title: Seq<char>,
    info: Seq<char>,
    stamp: Seq<char>,
    urn: Seq<char>,
    ignore: Seq<FilingType>,
    seen: Set<usize>,
)
    requires
        title_fields(title) is Some,
        classify((title_fields(title)->0).0) is Some,
        !ignore.contains(classify((title_fields(title)->0).0)->0),
        filing_fields(info) is Some,
        stamp.len() > 0,
        !seen.contains((filing_fields(info)->0).1),
    ensures
        ({
            let (token, name, cik) = title_fields(title)->0;
            let t = classify(token)->0;
            let (date, acc) = filing_fields(info)->0;
            assemble(seq![title, info, stamp, urn], ignore, seen) == (
            Ok::<Seq<EntryView>, Failure>(seq![entry_of(t, name, cik, acc, date, stamp)]),
            seen.insert(acc),
            )
        }),
{
    let frags = seq![title, info, stamp, urn];
    assert(assemble_windows(frags, ignore, seen, 0) == (
    Ok::<Seq<EntryView>, Failure>(Seq::empty()),
    seen,
    ));
    assert(assemble(frags, ignore, seen) == window_step(
        title,
        info,
        stamp,
        ignore,
        Seq::empty(),
        seen,
    ));
    let (date, acc) = filing_fields(info)->0;
    let (token, name, cik) = title_fields(title)->0;
    assert(Seq::<EntryView>::empty().push(entry_of(classify(token)->0, name, cik, acc, date, stamp))
        =~= seq![entry_of(classify(token)->0, name, cik, acc, date, stamp)]);
}

proof fn lemma_step_grows(
    title: Seq<char>,
    info: Seq<char>,
    stamp: Seq<char>,
    ignore: Seq<FilingType>,
    records: Seq<EntryView>,
    seen: Set<usize>,
)
    ensures
        seen.subset_of(window_step(title, info, stamp, ignore, records, seen).1),
{
}

proof fn lemma_seen_grows(
    frags: Seq<Seq<char>>,
    ignore: Seq<FilingType>,
    seen: Set<usize>,
    k: nat,
    n: nat,
)
    requires
        k <= n,
    ensures
        assemble_windows(frags, ignore, seen, k).1.subset_of(assemble_windows(frags, ignore, seen, n).1),
    decreases n - k,
{
    if k < n {
        lemma_seen_grows(frags, ignore, seen, k, (n - 1) as nat);
        let prev = assemble_windows(frags, ignore, seen, (n - 1) as nat);
        if let Ok(records) = prev.0 {
            let base = 4 * (n - 1);
            lemma_step_grows(frags[base], frags[base + 1], frags[base + 2], ignore, records, prev.1);
        }
    }
}

proof fn lemma_second_pass_prefix(
    frags: Seq<Seq<char>>,
    ignore: Seq<FilingType>,
    seen: Set<usize>,
    k: nat,
    n: nat,
)
    requires
        k <= n,
        assemble_windows(frags, ignore, seen, n).0 is Ok,
    ensures
        assemble_windows(frags, ignore, assemble_windows(frags, ignore, seen, n).1, k) == (
        Ok::<Seq<EntryView>, Failure>(Seq::empty()),
        assemble_windows(frags, ignore, seen, n).1,
        ),
    decreases k,
{
    let after = assemble_windows(frags, ignore, seen, n).1;
    if k > 0 {
        let j = (k - 1) as nat;
        lemma_second_pass_prefix(frags, ignore, seen, j, n);
        if assemble_windows(frags, ignore, seen, k).0 is Err {
            lemma_failure_persists(frags, ignore, seen, k, n);
        }
        if assemble_windows(frags, ignore, seen, j).0 is Err {
            lemma_failure_persists(frags, ignore, seen, j, n);
        }
        lemma_seen_grows(frags, ignore, seen, k, n);
        let first = assemble_windows(frags, ignore, seen, j);
        let base = 4 * j as int;
        let step = window_step(
            frags[base],
            frags[base + 1],
            frags[base + 2],
            ignore,
            first.0->Ok_0,
            first.1,
        );
        assert(step == assemble_windows(frags, ignore, seen, k));
        assert(step.1.subset_of(after));
    }
}

/// Assembling a batch a second time, against the accession numbers that the
/// first run left, yields no record and records nothing more.
pub proof fn law_second_pass_is_empty(
    frags: Seq<Seq<char>>,
    ignore: Seq<FilingType>,
    seen: Set<usize>,
)
    requires
        assemble(frags, ignore, seen).0 is Ok,
    ensures
        assemble(frags, ignore, assemble(frags, ignore, seen).1) == (
        Ok::<Seq<EntryView>, Failure>(Seq::empty()),
        assemble(frags, ignore, seen).1,
        ),
{
    lemma_second_pass_prefix(frags, ignore, seen, frags.len() / 4, frags.len() / 4);
}

proof fn lemma_records_so_far(
    frags: Seq<Seq<char>>,
    ignore: Seq<FilingType>,
    seen: Set<usize>,
    k: nat,
)
    requires
        assemble_windows(frags, ignore, seen, k).0 is Ok,
    ensures
        ({
            let (res, after) = assemble_windows(frags, ignore, seen, k);
            let records = res->Ok_0;
            &&& forall|i: int| 0 <= i < records.len() ==> !ignore.contains(#[trigger] records[i].filing_type)
            &&& after == seen.union(accessions(records))
        }),
    decreases k,
{
    if k == 0 {
        assert(accessions(Seq::<EntryView>::empty()) =~= Set::<usize>::empty());
        assert(seen.union(Set::<usize>::empty()) =~= seen);
    } else {
        let j = (k - 1) as nat;
        if assemble_windows(frags, ignore, seen, j).0 is Err {
            lemma_failure_persists(frags, ignore, seen, j, k);
        }
        lemma_records_so_far(frags, ignore, seen, j);
        let prev = assemble_windows(frags, ignore, seen, j);
        let records = prev.0->Ok_0;
        let cur = assemble_windows(frags, ignore, seen, k);
        let now = cur.0->Ok_0;
        if now != records {
            let base = 4 * j as int;
            let (token, name, cik) = title_fields(frags[base])->0;
            let t = classify(token)->0;
            let (date, acc) = filing_fields(frags[base + 1])->0;
            let e = entry_of(t, name, cik, acc, date, frags[base + 2]);
            assert(now == records.push(e));
            assert(cur.1 == prev.1.insert(acc));
            let f = |x: EntryView| x.accession_number;
            assert(now.map_values(f) =~= records.map_values(f).push(acc));
            assert(accessions(now) =~= accessions(records).insert(acc)) by {
                assert forall|x: usize| accessions(now).contains(x) <==> (accessions(records).contains(x) || x == acc) by {
                    let a = records.map_values(f);
                    let b = now.map_values(f);
                    if a.contains(x) {
                        let i = choose|i: int| 0 <= i < a.len() && a[i] == x;
                        assert(b[i] == x);
                    }
                    if b.contains(x) && x != acc {
                        let i = choose|i: int| 0 <= i < b.len() && b[i] == x;
                        assert(a[i] == x);
                    }
                    if x == acc {
                        assert(b[a.len() as int] == x);
                    }
                }
            }
            assert(cur.1 =~= seen.union(accessions(now)));
            assert forall|i: int| 0 <= i < now.len() implies !ignore.contains(#[trigger] now[i].filing_type) by {
                if i < records.len() {
                    assert(now[i] == records[i]);
                }
            }
        } else {
            let base = 4 * j as int;
            match filing_fields(frags[base + 1]) {
                Some((date, acc)) => {
                    if !cur.1.contains(acc) {
                        assert(cur.1 == prev.1);
                    }
                    assert(cur.1 =~= prev.1);
                },
                None => {},
            }
        }
    }
}

/// No record of an ignored type is ever produced, and the accession numbers
/// recorded by a run are exactly those seen before it and those of the
/// records it produced: the number of an ignored entry is recorded only if
/// some produced record has it too.
pub proof fn law_ignored_types_never_recorded(
    frags: Seq<Seq<char>>,
    ignore: Seq<FilingType>,
    seen: Set<usize>,
)
    requires
        assemble(frags, ignore, seen).0 is Ok,
    ensures
        ({
            let (res, after) = assemble(frags, ignore, seen);
            let records = res->Ok_0;
            &&& forall|i: int| 0 <= i < records.len() ==> !ignore.contains(#[trigger] records[i].filing_type)
            &&& after == seen.union(accessions(records))
        }),
{
    lemma_records_so_far(frags, ignore, seen, frags.len() / 4);
}

} // verus!
