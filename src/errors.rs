//! Errors of the extraction pipeline. Each parse or classification error
//! carries the raw text that failed, for diagnosis.

use vstd::prelude::*;

verus! {

/// Why a batch of feed fragments could not be turned into records.
#[derive(Debug)]
pub enum ScrapeError {
    /// The number of fragments (held here) is not a multiple of four.
    MalformedFeed(usize),
    /// A title without the `" - "` separator or without a parenthesized key.
    TitleFormat(String),
    /// A filing-type token outside the vocabulary.
    Classification(String),
    /// A filing-information blurb without a date and an accession number.
    FilingInfoFormat(String),
    /// An empty or absent timestamp fragment.
    MissingTimestamp(String),
}

/// The mathematical value of a `ScrapeError`.
pub enum Failure {
    MalformedFeed(nat),
    TitleFormat(Seq<char>),
    Classification(Seq<char>),
    FilingInfoFormat(Seq<char>),
    MissingTimestamp(Seq<char>),
}

impl View for ScrapeError {
    type V = Failure;

    open spec fn view(&self) -> Failure {
        match self {
            ScrapeError::MalformedFeed(n) => Failure::MalformedFeed(*n as nat),
            ScrapeError::TitleFormat(s) => Failure::TitleFormat(s@),
            ScrapeError::Classification(s) => Failure::Classification(s@),
            ScrapeError::FilingInfoFormat(s) => Failure::FilingInfoFormat(s@),
            ScrapeError::MissingTimestamp(s) => Failure::MissingTimestamp(s@),
        }
    }
}

} // verus!
