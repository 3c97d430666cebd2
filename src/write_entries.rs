//! The tab-separated report of the records of a poll; writing it out is the
//! caller's part.

use crate::sec_entry::{line_of, views, EntryView, SECEntry};
use vstd::prelude::*;

verus! {

/// The header row of the report.
pub open spec fn table_header() -> Seq<char> {
    "Filing Type\tName\tCIK\tAccession Number\tDate\tTime\tUrl\n"@
}

/// One newline-terminated line per record, in order.
pub open spec fn lines_of(entries: Seq<EntryView>) -> Seq<char>
    decreases entries.len(),
{
    if entries.len() == 0 {
        Seq::empty()
    } else {
        lines_of(entries.drop_last()) + line_of(entries.last()) + "\n"@
    }
}

/// The record lines of the report.
pub fn entries_text(entries: &Vec<SECEntry>) -> (r: String)
    ensures
        r@ == lines_of(views(entries@)),
{
    let mut s = String::new();
    let mut i: usize = 0;
    while i < entries.len()
        invariant
            i <= entries.len(),
            s@ == lines_of(views(entries@.subrange(0, i as int))),
        decreases entries.len() - i,
    {
        let line = entries[i].string();
        s.append(line.as_str());
        s.append("\n");
        proof {
            let next = views(entries@.subrange(0, i + 1));
            assert(next.drop_last() =~= views(entries@.subrange(0, i as int)));
            assert(next.last() == entries@[i as int]@);
        }
        i = i + 1;
    }
    proof {
        assert(entries@.subrange(0, entries@.len() as int) =~= entries@);
    }
    s
}

/// The whole report: the header row, then one line per record.
pub fn table_text(entries: &Vec<SECEntry>) -> (r: String)
    ensures
        r@ == table_header() + lines_of(views(entries@)),
{
    let mut s = String::new();
    s.append("Filing Type\tName\tCIK\tAccession Number\tDate\tTime\tUrl\n");
    let lines = entries_text(entries);
    s.append(lines.as_str());
    proof {
        assert(s@ =~= table_header() + lines_of(views(entries@)));
    }
    s
}

} // verus!
