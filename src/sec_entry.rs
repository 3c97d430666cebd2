//! The filing-type vocabulary and the filing record.

use crate::errors::ScrapeError;
use crate::text::{decimal, decimal_string, str_eq, zero_padded, zero_padded_string};
use vstd::prelude::*;

verus! {

/// The recognized form codes.
#[derive(Debug, PartialEq, Eq, Structural, Clone, Copy, Hash)]
pub enum FilingType {
    SecS1,
    Sec3,
    Sec3A,
    Sec4,
    Sec4A,
    Sec5,
    Sec6K,
    SecD,
    SecDA,
    SecFWP,
    Sec424B2,
    Sec497,
    Sec497K,
    Sec1012GA,
    Sec485APOS,
    SecN2,
    Sec10K,
    Sec10Q,
    Sec8K,
    Sec8KA,
    Sec13FHR,
    Sec13GA,
    SecPOSAM,
    Sec424B5,
    SecPRE14A,
    SecDFAN14A,
    SecSC13DA,
    Sec144,
    Sec13G,
    SecF10,
    Sec425,
    SecF3D,
    SecPRER14A,
    SecPRE14C,
}

/// The token-to-type table: each form code as it is written in a feed title.
pub open spec fn vocabulary() -> Seq<(Seq<char>, FilingType)> {
    seq![
        ("S-1/A"@, FilingType::SecS1),
        ("5"@, FilingType::Sec5),
        ("4"@, FilingType::Sec4),
        ("4/A"@, FilingType::Sec4A),
        ("3"@, FilingType::Sec3),
        ("6-K"@, FilingType::Sec6K),
        ("FWP"@, FilingType::SecFWP),
        ("425"@, FilingType::Sec425),
        ("8-K/A"@, FilingType::Sec8KA),
        ("8-K"@, FilingType::Sec8K),
        ("497"@, FilingType::Sec497),
        ("D"@, FilingType::SecD),
        ("424B2"@, FilingType::Sec424B2),
        ("13F-HR"@, FilingType::Sec13FHR),
        ("SC 13G"@, FilingType::Sec13G),
        ("SC 13G/A"@, FilingType::Sec13GA),
        ("SC 13D/A"@, FilingType::SecSC13DA),
        ("497K"@, FilingType::Sec497K),
        ("POS AM"@, FilingType::SecPOSAM),
        ("D/A"@, FilingType::SecDA),
        ("424B5"@, FilingType::Sec424B5),
        ("PRE 14A"@, FilingType::SecPRE14A),
        ("DFAN14A"@, FilingType::SecDFAN14A),
        ("144"@, FilingType::Sec144),
        ("F-10"@, FilingType::SecF10),
        ("F-3D"@, FilingType::SecF3D),
        ("PRER14A"@, FilingType::SecPRER14A),
        ("PRE 14C"@, FilingType::SecPRE14C),
    ]
}

/// The type of the first entry of `table` whose token is `token`.
pub open spec fn lookup(table: Seq<(Seq<char>, FilingType)>, token: Seq<char>) -> Option<FilingType>
    decreases table.len(),
{
    if table.len() == 0 {
        None
    } else if table[0].0 == token {
        Some(table[0].1)
    } else {
        lookup(table.drop_first(), token)
    }
}

/// Classification of a filing-type token: exact match against the vocabulary.
pub open spec fn classify(token: Seq<char>) -> Option<FilingType> {
    lookup(vocabulary(), token)
}

/// The name of a filing type, as the report writes it.
pub open spec fn type_label(t: FilingType) -> Seq<char> {
    match t {
        FilingType::SecS1 => "SecS1"@,
        FilingType::Sec3 => "Sec3"@,
        FilingType::Sec3A => "Sec3A"@,
        FilingType::Sec4 => "Sec4"@,
        FilingType::Sec4A => "Sec4A"@,
        FilingType::Sec5 => "Sec5"@,
        FilingType::Sec6K => "Sec6K"@,
        FilingType::SecD => "SecD"@,
        FilingType::SecDA => "SecDA"@,
        FilingType::SecFWP => "SecFWP"@,
        FilingType::Sec424B2 => "Sec424B2"@,
        FilingType::Sec497 => "Sec497"@,
        FilingType::Sec497K => "Sec497K"@,
        FilingType::Sec1012GA => "Sec1012GA"@,
        FilingType::Sec485APOS => "Sec485APOS"@,
        FilingType::SecN2 => "SecN2"@,
        FilingType::Sec10K => "Sec10K"@,
        FilingType::Sec10Q => "Sec10Q"@,
        FilingType::Sec8K => "Sec8K"@,
        FilingType::Sec8KA => "Sec8KA"@,
        FilingType::Sec13FHR => "Sec13FHR"@,
        FilingType::Sec13GA => "Sec13GA"@,
        FilingType::SecPOSAM => "SecPOSAM"@,
        FilingType::Sec424B5 => "Sec424B5"@,
        FilingType::SecPRE14A => "SecPRE14A"@,
        FilingType::SecDFAN14A => "SecDFAN14A"@,
        FilingType::SecSC13DA => "SecSC13DA"@,
        FilingType::Sec144 => "Sec144"@,
        FilingType::Sec13G => "Sec13G"@,
        FilingType::SecF10 => "SecF10"@,
        FilingType::Sec425 => "Sec425"@,
        FilingType::SecF3D => "SecF3D"@,
        FilingType::SecPRER14A => "SecPRER14A"@,
        FilingType::SecPRE14C => "SecPRE14C"@,
    }
}

fn vocabulary_table() -> (r: Vec<(&'static str, FilingType)>)
    ensures
        r@.map_values(|p: (&'static str, FilingType)| (p.0@, p.1)) == vocabulary(),
{
    let r = vec![
        ("S-1/A", FilingType::SecS1),
        ("5", FilingType::Sec5),
        ("4", FilingType::Sec4),
        ("4/A", FilingType::Sec4A),
        ("3", FilingType::Sec3),
        ("6-K", FilingType::Sec6K),
        ("FWP", FilingType::SecFWP),
        ("425", FilingType::Sec425),
        ("8-K/A", FilingType::Sec8KA),
        ("8-K", FilingType::Sec8K),
        ("497", FilingType::Sec497),
        ("D", FilingType::SecD),
        ("424B2", FilingType::Sec424B2),
        ("13F-HR", FilingType::Sec13FHR),
        ("SC 13G", FilingType::Sec13G),
        ("SC 13G/A", FilingType::Sec13GA),
        ("SC 13D/A", FilingType::SecSC13DA),
        ("497K", FilingType::Sec497K),
        ("POS AM", FilingType::SecPOSAM),
        ("D/A", FilingType::SecDA),
        ("424B5", FilingType::Sec424B5),
        ("PRE 14A", FilingType::SecPRE14A),
        ("DFAN14A", FilingType::SecDFAN14A),
        ("144", FilingType::Sec144),
        ("F-10", FilingType::SecF10),
        ("F-3D", FilingType::SecF3D),
        ("PRER14A", FilingType::SecPRER14A),
        ("PRE 14C", FilingType::SecPRE14C),
    ];
    proof {
        assert(r@.map_values(|p: (&'static str, FilingType)| (p.0@, p.1)) =~= vocabulary());
    }
    r
}

impl FilingType {
    /// Classifies a filing-type token by exact match against the vocabulary.
    pub fn which(filing_type: &str) -> (r: Result<FilingType, ScrapeError>)
        ensures
            match classify(filing_type@) {
                Some(t) => r == Ok::<FilingType, ScrapeError>(t),
                None => r is Err && r->Err_0@ == crate::errors::Failure::Classification(
                    filing_type@,
                ),
            },
    {
        let table = vocabulary_table();
        let ghost entries = table@.map_values(|p: (&'static str, FilingType)| (p.0@, p.1));
        proof {
            assert(entries.subrange(0, entries.len() as int) =~= entries);
        }
        let mut i: usize = 0;
        while i < table.len()
            invariant
                i <= table.len(),
                entries == table@.map_values(|p: (&'static str, FilingType)| (p.0@, p.1)),
                classify(filing_type@) == lookup(entries.subrange(i as int, entries.len() as int), filing_type@),
            decreases table.len() - i,
        {
            proof {
                let rest = entries.subrange(i as int, entries.len() as int);
                assert(rest.drop_first() =~= entries.subrange(i + 1, entries.len() as int));
            }
            if str_eq(table[i].0, filing_type) {
                return Ok(table[i].1);
            }
            i = i + 1;
        }
        Err(ScrapeError::Classification(filing_type.to_owned()))
    }

    /// The name of the type, as the report writes it.
    pub fn label(&self) -> (r: &'static str)
        ensures
            r@ == type_label(*self),
    {
        match self {
            FilingType::SecS1 => "SecS1",
            FilingType::Sec3 => "Sec3",
            FilingType::Sec3A => "Sec3A",
            FilingType::Sec4 => "Sec4",
            FilingType::Sec4A => "Sec4A",
            FilingType::Sec5 => "Sec5",
            FilingType::Sec6K => "Sec6K",
            FilingType::SecD => "SecD",
            FilingType::SecDA => "SecDA",
            FilingType::SecFWP => "SecFWP",
            FilingType::Sec424B2 => "Sec424B2",
            FilingType::Sec497 => "Sec497",
            FilingType::Sec497K => "Sec497K",
            FilingType::Sec1012GA => "Sec1012GA",
            FilingType::Sec485APOS => "Sec485APOS",
            FilingType::SecN2 => "SecN2",
            FilingType::Sec10K => "Sec10K",
            FilingType::Sec10Q => "Sec10Q",
            FilingType::Sec8K => "Sec8K",
            FilingType::Sec8KA => "Sec8KA",
            FilingType::Sec13FHR => "Sec13FHR",
            FilingType::Sec13GA => "Sec13GA",
            FilingType::SecPOSAM => "SecPOSAM",
            FilingType::Sec424B5 => "Sec424B5",
            FilingType::SecPRE14A => "SecPRE14A",
            FilingType::SecDFAN14A => "SecDFAN14A",
            FilingType::SecSC13DA => "SecSC13DA",
            FilingType::Sec144 => "Sec144",
            FilingType::Sec13G => "Sec13G",
            FilingType::SecF10 => "SecF10",
            FilingType::Sec425 => "Sec425",
            FilingType::SecF3D => "SecF3D",
            FilingType::SecPRER14A => "SecPRER14A",
            FilingType::SecPRE14C => "SecPRE14C",
        }
    }
}

/// Width of the canonical accession number: 10-digit filer code, 2-digit
/// year, 6-digit sequence.
pub const ACCESSION_WIDTH: usize = 18;

/// The canonical accession number: the integer left-padded with zeros to 18
/// digits.
pub open spec fn accession_padded(acc: nat) -> Seq<char> {
    zero_padded(acc, ACCESSION_WIDTH as nat)
}

/// The canonical accession number with hyphens after its 10th and 12th digit.
pub open spec fn accession_dashed(acc: nat) -> Seq<char> {
    let p = accession_padded(acc);
    p.subrange(0, 10) + "-"@ + p.subrange(10, 12) + "-"@ + p.subrange(12, p.len() as int)
}

/// The index page of a filing in the regulator's archive.
pub open spec fn detail_url(cik: nat, acc: nat) -> Seq<char> {
    "https://www.sec.gov/Archives/edgar/data/"@ + decimal(cik) + "/"@ + accession_padded(acc)
        + "/"@ + accession_dashed(acc) + "-index.htm"@
}

/// The mathematical value of a filing record.
pub struct EntryView {
    pub filing_type: FilingType,
    pub name: Seq<char>,
    pub cik: usize,
    pub accession_number: usize,
    pub date: usize,
    pub timestamp: Seq<char>,
    pub url: Seq<char>,
}

/// The value of each record.
pub open spec fn views(v: Seq<SECEntry>) -> Seq<EntryView> {
    v.map_values(|e: SECEntry| e@)
}

/// The record built from its parsed fields; the URL is derived from the key
/// and the accession number.
pub open spec fn entry_of(
    filing_type: FilingType,
    name: Seq<char>,
    cik: usize,
    accession_number: usize,
    date: usize,
    timestamp: Seq<char>,
) -> EntryView {
    EntryView {
        filing_type,
        name,
        cik,
        accession_number,
        date,
        timestamp,
        url: detail_url(cik as nat, accession_number as nat),
    }
}

/// A record as one tab-separated report line (without the newline).
pub open spec fn line_of(e: EntryView) -> Seq<char> {
    type_label(e.filing_type) + "\t"@ + e.name + "\t"@ + decimal(e.cik as nat) + "\t"@
        + decimal(e.accession_number as nat) + "\t"@ + decimal(e.date as nat) + "\t"@
        + e.timestamp + "\t"@ + e.url
}

/// One parsed filing.
#[derive(Debug, PartialEq, Eq)]
pub struct SECEntry {
    filing_type: FilingType,
    name: String,
    cik: usize,
    accession_number: usize,
    date: usize,
    timestamp: String,
    url: String,
}

impl View for SECEntry {
    type V = EntryView;

    closed spec fn view(&self) -> EntryView {
        EntryView {
            filing_type: self.filing_type,
            name: self.name@,
            cik: self.cik,
            accession_number: self.accession_number,
            date: self.date,
            timestamp: self.timestamp@,
            url: self.url@,
        }
    }
}

impl SECEntry {
    /// Builds a record, deriving its detail URL.
    pub fn new(
        filing_type: FilingType,
        name: String,
        cik: usize,
        accession_number: usize,
        date: usize,
        timestamp: String,
    ) -> (r: SECEntry)
        ensures
            r@ == entry_of(filing_type, name@, cik, accession_number, date, timestamp@),
    {
        let url = SECEntry::get_url(cik, accession_number);
        SECEntry { filing_type, name, cik, accession_number, date, timestamp, url }
    }

    /// The record as one tab-separated report line.
    pub fn string(&self) -> (r: String)
        ensures
            r@ == line_of(self@),
    {
        let mut s = String::new();
        s.append(self.filing_type.label());
        s.append("\t");
        s.append(self.name.as_str());
        s.append("\t");
        let cik = decimal_string(self.cik);
        s.append(cik.as_str());
        s.append("\t");
        let acc = decimal_string(self.accession_number);
        s.append(acc.as_str());
        s.append("\t");
        let date = decimal_string(self.date);
        s.append(date.as_str());
        s.append("\t");
        s.append(self.timestamp.as_str());
        s.append("\t");
        s.append(self.url.as_str());
        proof {
            assert(s@ =~= line_of(self@));
        }
        s
    }

    /// The detail-page URL of a filing: the accession number is zero-padded
    /// back to its canonical width, then shown without and with hyphens.
    pub fn get_url(cik: usize, acc: usize) -> (r: String)
        ensures
            r@ == detail_url(cik as nat, acc as nat),
    {
        let padded = zero_padded_string(acc, ACCESSION_WIDTH);
        let p = padded.as_str();
        let len = p.unicode_len();
        let key = decimal_string(cik);
        let mut s = String::new();
        s.append("https://www.sec.gov/Archives/edgar/data/");
        s.append(key.as_str());
        s.append("/");
        s.append(p);
        s.append("/");
        s.append(p.substring_char(0, 10));
        s.append("-");
        s.append(p.substring_char(10, 12));
        s.append("-");
        s.append(p.substring_char(12, len));
        s.append("-index.htm");
        proof {
            assert(s@ =~= detail_url(cik as nat, acc as nat));
        }
        s
    }

    pub fn filing_type(&self) -> (r: FilingType)
        ensures
            r == self@.filing_type,
    {
        self.filing_type
    }

    pub fn name(&self) -> (r: &str)
        ensures
            r@ == self@.name,
    {
        self.name.as_str()
    }

    pub fn cik(&self) -> (r: usize)
        ensures
            r == self@.cik,
    {
        self.cik
    }

    pub fn accession_number(&self) -> (r: usize)
        ensures
            r == self@.accession_number,
    {
        self.accession_number
    }

    pub fn date(&self) -> (r: usize)
        ensures
            r == self@.date,
    {
        self.date
    }

    pub fn timestamp(&self) -> (r: &str)
        ensures
            r@ == self@.timestamp,
    {
        self.timestamp.as_str()
    }

    pub fn url(&self) -> (r: &str)
        ensures
            r@ == self@.url,
    {
        self.url.as_str()
    }
}

} // verus!
