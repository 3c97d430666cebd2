//! The feed tokenizer: the text that occurs inside the entries of a feed
//! document, in document order.

use crate::text::texts;
use vstd::prelude::*;
use xml::reader::{EventReader, XmlEvent};

verus! {

/// The kinds of markup event that the tokenizer tells apart.
#[derive(Debug, PartialEq, Eq, Structural, Clone, Copy)]
pub enum MarkupKind {
    /// An element opens; the event holds its local name.
    Open,
    /// An element closes; the event holds its local name.
    Close,
    /// Character data; the event holds the text.
    Text,
    /// Anything else (declarations, comments, whitespace, the end of input).
    Other,
}

/// One markup event of a document.
#[derive(Debug)]
pub struct MarkupEvent {
    pub kind: MarkupKind,
    pub text: String,
}

impl View for MarkupEvent {
    type V = (MarkupKind, Seq<char>);

    open spec fn view(&self) -> (MarkupKind, Seq<char>) {
        (self.kind, self.text@)
    }
}

/// The markup events that the XML reader produces for a document.
pub uninterp spec fn markup_events_of(doc: Seq<char>) -> Seq<(MarkupKind, Seq<char>)>;

/// Relies on `xml::reader::EventReader` (xml-rs): the events of the document
/// in order, start and end of an element with the element's local name and
/// character data with its text; they depend on the document alone.
#[verifier::external_body]
pub(crate) fn markup_events(doc: &str) -> (r: Vec<MarkupEvent>)
    ensures
        r@.map_values(|e: MarkupEvent| e@) == markup_events_of(doc@),
{
    let mut events = Vec::new();
    for e in EventReader::from_str(doc) {
        events.push(match e {
            Ok(XmlEvent::StartElement { name, .. }) => MarkupEvent { kind: MarkupKind::Open, text: name.local_name },
            Ok(XmlEvent::EndElement { name }) => MarkupEvent { kind: MarkupKind::Close, text: name.local_name },
            Ok(XmlEvent::Characters(c)) => MarkupEvent { kind: MarkupKind::Text, text: c },
            _ => MarkupEvent { kind: MarkupKind::Other, text: String::new() },
        });
    }
    events
}

/// `entry` occurs in `name` at position `i`.
pub open spec fn entry_at(name: Seq<char>, i: int) -> bool {
    0 <= i && i + 5 <= name.len() && name[i] == 'e' && name[i + 1] == 'n' && name[i + 2] == 't'
        && name[i + 3] == 'r' && name[i + 4] == 'y'
}

/// An element name that marks a feed entry: one that contains `entry`.
pub open spec fn names_entry(name: Seq<char>) -> bool {
    exists|i: int| entry_at(name, i)
}

/// Whether the first `n` events leave the reader inside an entry: an opening
/// entry element sets the flag, a closing one clears it.
pub open spec fn inside_entry(events: Seq<(MarkupKind, Seq<char>)>, n: nat) -> bool
    decreases n,
{
    if n == 0 {
        false
    } else {
        let e = events[n - 1];
        if e.0 == MarkupKind::Open && names_entry(e.1) {
            true
        } else if e.0 == MarkupKind::Close && names_entry(e.1) {
            false
        } else {
            inside_entry(events, (n - 1) as nat)
        }
    }
}

/// The character data among the first `n` events that occurs inside an entry.
pub open spec fn entry_texts(events: Seq<(MarkupKind, Seq<char>)>, n: nat) -> Seq<Seq<char>>
    decreases n,
{
    if n == 0 {
        Seq::empty()
    } else {
        let prev = entry_texts(events, (n - 1) as nat);
        if events[n - 1].0 == MarkupKind::Text && inside_entry(events, (n - 1) as nat) {
            prev.push(events[n - 1].1)
        } else {
            prev
        }
    }
}

/// The fragments of a feed document: the text inside its entries.
pub open spec fn feed_fragments(doc: Seq<char>) -> Seq<Seq<char>> {
    entry_texts(markup_events_of(doc), markup_events_of(doc).len())
}

fn names_entry_exec(name: &str) -> (r: bool)
    ensures
        r == names_entry(name@),
{
    let n = name.unicode_len();
    let mut i: usize = 0;
    while i < n && n - i >= 5
        invariant
            n == name@.len(),
            forall|j: int| 0 <= j < i ==> !entry_at(name@, j),
        decreases n - i,
    {
        if name.get_char(i) == 'e' && name.get_char(i + 1) == 'n' && name.get_char(i + 2) == 't'
            && name.get_char(i + 3) == 'r' && name.get_char(i + 4) == 'y' {
            proof {
                assert(entry_at(name@, i as int));
            }
            return true;
        }
        i = i + 1;
    }
    proof {
        assert forall|j: int| !entry_at(name@, j) by {
            if 0 <= j < i {
            }
        }
    }
    false
}

/// The character data that occurs inside entry elements, in order: the
/// fragments that the assembler groups into entries.
pub fn entry_fragments(events: &Vec<MarkupEvent>) -> (r: Vec<String>)
    ensures
        texts(r@) == entry_texts(events@.map_values(|e: MarkupEvent| e@), events@.len()),
{
    let ghost evs = events@.map_values(|e: MarkupEvent| e@);
    let mut out: Vec<String> = Vec::new();
    let mut inside = false;
    let mut i: usize = 0;
    proof {
        assert(texts(out@) =~= Seq::<Seq<char>>::empty());
    }
    while i < events.len()
        invariant
            i <= events.len(),
            evs == events@.map_values(|e: MarkupEvent| e@),
            inside == inside_entry(evs, i as nat),
            texts(out@) == entry_texts(evs, i as nat),
        decreases events.len() - i,
    {
        let e = &events[i];
        proof {
            assert(evs[i as int] == e@);
        }
        match e.kind {
            MarkupKind::Open => {
                if names_entry_exec(e.text.as_str()) {
                    inside = true;
                }
            },
            MarkupKind::Close => {
                if names_entry_exec(e.text.as_str()) {
                    inside = false;
                }
            },
            MarkupKind::Text => {
                if inside {
                    let ghost before = out@;
                    out.push(e.text.clone());
                    proof {
                        assert(texts(out@) =~= texts(before).push(e.text@));
                    }
                }
            },
            MarkupKind::Other => {},
        }
        i = i + 1;
    }
    out
}

} // verus!
