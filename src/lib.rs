//! Extraction of filing records from a regulatory filings feed: tokenizing the
//! feed into text fragments, parsing the per-filing fields, classifying the
//! filing type and dropping filings whose accession number was already seen.

pub mod errors;
pub mod laws;
pub mod markup;
pub mod patterns;
pub mod read_rss;
pub mod sec_entry;
pub mod store;
pub mod text;
pub mod write_entries;
