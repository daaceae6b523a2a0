//! The boundary to the feed-document library.
//!
//! Reading and writing XML documents is delegated to `atom_syndication`;
//! these wrappers carry plain entry and feed values across that boundary.

use vstd::prelude::*;
use std::str::FromStr;
use atom_syndication::Entry as AtomEntry;
use atom_syndication::Feed as AtomFeed;
use atom_syndication::Person as AtomPerson;
use atom_syndication::Category as AtomCategory;
use atom_syndication::Content as AtomContent;
use atom_syndication::Text;
use chrono::DateTime;

verus! {

/// An entry document of the feed-document library, carried opaquely between
/// its parser and its writer.
#[verifier::external_type_specification]
#[verifier::external_body]
pub struct ExAtomEntry(AtomEntry);

/// The standalone XML document that the feed-document library writes for an
/// entry with the given fields.
pub uninterp spec fn entry_xml_of(e: crate::entry::EntryView) -> Seq<u8>;

/// Whether an entry's written document is guaranteed to parse back.  The
/// writer emits inline content typed `xhtml` raw, without escaping, so such
/// a body can break the document around it; every other shape is escaped on
/// the way out and survives the round trip.
pub open spec fn xml_safe(e: crate::entry::EntryView) -> bool {
    match e.content {
        Some(c) => c.ctype != Some("xhtml"@),
        None => true,
    }
}

/// Relies on atom_syndication's `Entry::write_to` and `Entry::from_str` as
/// a pair: the document written is a pure function of the entry's fields,
/// which are moved over one for one; and unless the entry carries raw
/// `xhtml`-typed content, the writer escapes every field, emitting a
/// standalone entry with the Atom namespace declared — exactly the form the
/// parser reads — so the document parses back.  A timestamp outside
/// chrono's range falls back to the epoch.
#[verifier::external_body]
pub(crate) fn entry_to_xml(e: &crate::entry::Entry) -> (r: Vec<u8>)
    ensures
        r@ == entry_xml_of(e@),
        xml_safe(e@) ==> parses_as_entry(r@),
{
    let e = e.clone();
    let dt = |t: i64| DateTime::from_timestamp(t, 0).unwrap_or(DateTime::UNIX_EPOCH).fixed_offset();
    let a = AtomEntry {
        id: e.id,
        title: Text::plain(e.title),
        updated: dt(e.updated.unwrap_or(0)),
        published: e.published.map(dt),
        summary: e.summary.map(Text::plain),
        content: e.content.map(|c| AtomContent { value: c.body, content_type: c.ctype, src: c.src, ..Default::default() }),
        categories: e.categories.into_iter().map(|c| AtomCategory { term: c.term, label: c.label, scheme: c.scheme }).collect(),
        ..Default::default()
    };
    a.write_to(Vec::new()).unwrap_or_default()
}

/// Whether the feed-document library parses these bytes as an entry
/// document.
pub uninterp spec fn parses_as_entry(b: Seq<u8>) -> bool;

/// Relies on atom_syndication's `Entry::from_str`: whether parsing succeeds
/// depends on the bytes alone.  The parsed entry itself stays opaque and is
/// only handed on to the writer.
#[verifier::external_body]
pub(crate) fn parse_entry(b: &Vec<u8>) -> (r: Option<AtomEntry>)
    ensures
        r is Some <==> parses_as_entry(b@),
{
    match std::str::from_utf8(b.as_slice()) {
        Ok(s) => AtomEntry::from_str(s).ok(),
        Err(_) => None,
    }
}

/// The aggregated feed document that the feed-document library writes for
/// the given head fields around the entries parsed back from the given
/// staged blobs (the feed value's own entry list plays no part).
pub uninterp spec fn feed_doc_of(f: crate::entry::FeedView, blobs: Seq<Seq<u8>>) -> Seq<u8>;

/// Relies on atom_syndication's `Feed::write_to` and `Entry::read_from`:
/// parses the staged blobs back into entries (a blob that does not parse
/// contributes an empty entry) and writes the aggregated document around
/// them, the feed's own fields moved over one for one — a pure function of
/// the fields and the blobs, named `feed_doc_of`.  The document goes into
/// an in-memory buffer, and the writer fails only on I/O errors of its
/// sink, which a `Vec` never raises, so the write always succeeds.
#[verifier::external_body]
pub(crate) fn write_feed(f: &crate::entry::Feed, blobs: Vec<Vec<u8>>) -> (r: Vec<u8>)
    ensures
        r@ == feed_doc_of(f@, blobs@.map_values(|b: Vec<u8>| b@)),
{
    let f = f.clone();
    let dt = |t: i64| DateTime::from_timestamp(t, 0).unwrap_or(DateTime::UNIX_EPOCH).fixed_offset();
    let a = AtomFeed {
        id: f.id,
        title: Text::plain(f.title),
        subtitle: f.subtitle.map(Text::plain),
        updated: dt(f.updated),
        authors: f.authors.into_iter().map(|p| AtomPerson { name: p.name, email: p.email, uri: p.uri, ..Default::default() }).collect(),
        entries: blobs.iter().map(|b| AtomEntry::read_from(b.as_slice()).unwrap_or_default()).collect(),
        ..Default::default()
    };
    a.write_to(Vec::new()).unwrap_or_default()
}

} // verus!
