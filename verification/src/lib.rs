//! Merges syndication feeds: every item is normalized into a common entry
//! shape, deduplicated by a digest of its timestamp and identifier, ordered
//! by that digest, and emitted as one aggregated Atom feed document.

use vstd::prelude::*;
use std::collections::HashMap;
use itertools::Itertools;

pub mod cache;
pub mod clock;
pub mod digest;
pub mod entry;
pub mod io;
pub mod mem;
pub mod meta;
pub mod rss;
pub mod xml;

use crate::cache::Cache;
use crate::cache::opened_contents;
use crate::clock::now_ts;
use crate::digest::digest;
use crate::digest::digest_of;
use crate::digest::resolved_ts;
use crate::entry::Entry;
use crate::entry::EntryView;
use crate::entry::Feed;
use crate::entry::Person;
use crate::mem::CacheWriter;
use crate::mem::MemCache;
use crate::meta::FeedMetadata;
use crate::meta::MetaView;
use crate::xml::entry_to_xml;
use crate::xml::entry_xml_of;
use crate::xml::feed_doc_of;
use crate::xml::parse_entry;
use crate::xml::parses_as_entry;
use crate::xml::write_feed;
use crate::xml::xml_safe;

verus! {

broadcast use vstd::std_specs::hash::group_hash_axioms;

/// The failures the engine can report.
#[derive(Debug)]
pub enum Error {
    /// The underlying document serialization failed.
    WriteError,
    /// A staged byte blob could not be re-parsed during finalization.
    CacheError,
    /// A source document was unreadable or malformed.
    ParseError,
    /// An item or feed lacks data required for translation.
    IncompleteError,
}

/// What one `add` does to the staging map: nothing if the entry's digest is
/// already present, else the entry's serialized form is stored under its
/// digest.
pub open spec fn spec_add_entry(m: Map<u64, Seq<u8>>, e: EntryView) -> Map<u64, Seq<u8>> {
    if m.contains_key(digest_of(e)) {
        m
    } else {
        m.insert(digest_of(e), entry_xml_of(e))
    }
}

/// What presenting a whole sequence of entries does to the staging map, in
/// order.
pub open spec fn spec_add_all(m: Map<u64, Seq<u8>>, es: Seq<EntryView>) -> Map<u64, Seq<u8>>
    decreases es.len(),
{
    if es.len() == 0 {
        m
    } else {
        spec_add_all(spec_add_entry(m, es.first()), es.drop_first())
    }
}

/// `s` is the ascending sequence of exactly the keys of `m`.
pub open spec fn is_sorted_keys(m: Map<u64, Seq<u8>>, s: Seq<u64>) -> bool {
    &&& forall|i: int, j: int| 0 <= i < j < s.len() ==> s[i] < s[j]
    &&& forall|k: u64| #![auto] s.contains(k) <==> m.contains_key(k)
}

/// Relies on itertools' `sorted` over std's `HashMap::keys`: the result
/// holds exactly the map's keys, each once, in ascending order.
#[verifier::external_body]
fn sorted_keys(m: &HashMap<u64, Vec<u8>>) -> (r: Vec<u64>)
    ensures
        forall|i: int, j: int| 0 <= i < j < r@.len() ==> r@[i] < r@[j],
        forall|k: u64| #![auto] r@.contains(k) <==> m@.contains_key(k),
{
    m.keys().copied().sorted().collect()
}

/// An element-for-element copy of a byte vector.
fn copy_bytes(v: &Vec<u8>) -> (r: Vec<u8>)
    ensures
        r@ == v@,
{
    let mut r: Vec<u8> = Vec::new();
    let mut i: usize = 0;
    while i < v.len()
        invariant
            i <= v@.len(),
            r@ =~= v@.subrange(0, i as int),
        decreases v@.len() - i,
    {
        r.push(v[i]);
        i = i + 1;
        proof {
            assert(r@ =~= v@.subrange(0, i as int));
        }
    }
    proof {
        assert(v@.subrange(0, v@.len() as int) =~= v@);
    }
    r
}

/// The aggregated feed's head fields at finalization: the fixed placeholder
/// id, the metadata's title and single author, no subtitle, and the given
/// clock stamp.
pub open spec fn final_feed_head(meta: MetaView, t: i64) -> crate::entry::FeedView {
    crate::entry::FeedView {
        id: "urn:uuid:60a76c80-d399-11d9-b91C-0003939e0af6"@,
        title: meta.title,
        subtitle: None,
        updated: t,
        authors: seq![meta.author],
        entries: Seq::empty(),
    }
}

/// One accepted entry with its computed digest.
pub struct SequencerEntry {
    pub digest: u64,
    pub entry: Entry,
}

impl SequencerEntry {
    /// The value of the entry this record was made from.
    pub open spec fn entry_view(&self) -> EntryView {
        self.entry@
    }

    /// Take ownership of an entry and compute its digest.
    pub fn new(entry: Entry) -> (r: SequencerEntry)
        ensures
            r.entry_view() == entry@,
            r.digest == digest_of(entry@),
    {
        let d = digest(&entry);
        SequencerEntry { digest: d, entry }
    }

    /// The serialized byte form of the entry; unless the entry carries raw
    /// `xhtml`-typed content, it parses back as an entry document.
    pub fn to_bytes(&self) -> (b: Vec<u8>)
        ensures
            b@ == entry_xml_of(self.entry_view()),
            xml_safe(self.entry_view()) ==> parses_as_entry(b@),
    {
        entry_to_xml(&self.entry)
    }
}

/// The orchestrator: accepts entries, rejects duplicates by digest, stages
/// each accepted entry's serialized form keyed by digest, and on
/// finalization emits the staged entries in ascending digest order inside
/// one aggregated feed document.
pub struct Sequencer<C: Cache> {
    metadata: FeedMetadata,
    pub items: HashMap<u64, Vec<u8>>,
    item_keys: Vec<u64>,
    crsr: usize,
    limit: usize,
    /// The single shared sink that stands in when no staging store is
    /// configured.  Staging is a lifecycle hook only: entries are
    /// serialized into their own buffers, so this sink stays untouched.
    default_cache: CacheWriter,
    cache: Option<C>,
}

impl<C: Cache> Sequencer<C> {
    /// The staged entries: each accepted entry's serialized bytes under its
    /// digest.
    pub closed spec fn staged(&self) -> Map<u64, Seq<u8>> {
        self.items@.map_values(|v: Vec<u8>| v@)
    }

    /// The feed-level metadata.
    pub closed spec fn meta(&self) -> MetaView {
        self.metadata@
    }

    /// The key snapshot of the current (or last) iteration pass.
    pub closed spec fn snapshot(&self) -> Seq<u64> {
        self.item_keys@
    }

    /// The iteration cursor within the snapshot.
    pub closed spec fn cursor(&self) -> int {
        self.crsr as int
    }

    /// Whether an iteration pass is under way.
    pub closed spec fn in_pass(&self) -> bool {
        self.limit != 0
    }

    /// What is known of the configured staging store: `Some` of its
    /// contents where a store that describes itself is configured, `None`
    /// where no store is configured or the store promises nothing of its
    /// contents.
    pub closed spec fn store_contents(&self) -> Option<Map<Seq<char>, Seq<u8>>> {
        match self.cache {
            Some(c) => if c.modeled() {
                Some(c.contents())
            } else {
                None
            },
            None => None,
        }
    }

    /// The staged key set is finite (it is the key set of a hash map), so
    /// one accepted `add` grows `staged().dom().len()` by exactly one.
    pub proof fn lemma_staged_finite(&self)
        ensures
            self.staged().dom().finite(),
    {
        assert(self.staged().dom() =~= self.items@.dom());
    }

    /// Internal well-formedness: a pass's snapshot is sorted, lies within
    /// the staged map, and bounds the cursor; outside a pass the cursor
    /// rests at zero.
    pub closed spec fn wf(&self) -> bool {
        &&& self.metadata.wf()
        &&& (self.limit == 0 ==> self.crsr == 0)
        &&& (self.limit != 0 ==> {
            &&& self.limit == self.item_keys@.len()
            &&& self.crsr <= self.limit
            &&& forall|i: int, j: int|
                0 <= i < j < self.item_keys@.len() ==> self.item_keys@[i] < self.item_keys@[j]
            &&& forall|i: int|
                #![auto]
                0 <= i < self.item_keys@.len() ==> self.items@.contains_key(self.item_keys@[i])
        })
    }

    /// How many entries a finalization starting now would emit.
    pub open spec fn will_emit_count(&self) -> int {
        if self.in_pass() {
            self.snapshot().len() - self.cursor()
        } else {
            self.staged().dom().len() as int
        }
    }

    /// Whether every staged blob still pending emission parses back as an
    /// entry document.
    pub open spec fn all_pending_parse(&self) -> bool {
        if self.in_pass() {
            forall|i: int|
                #![auto]
                self.cursor() <= i < self.snapshot().len() ==> parses_as_entry(
                    self.staged()[self.snapshot()[i]],
                )
        } else {
            forall|k: u64| #![auto]
                self.staged().contains_key(k) ==> parses_as_entry(self.staged()[k])
        }
    }

    /// Hand the sequencer a staging store to notify of every accepted
    /// entry.
    pub fn with_cache<C2: Cache>(self, w: C2) -> (r: Sequencer<C2>)
        ensures
            self.wf() ==> r.wf(),
            r.staged() == self.staged(),
            r.meta() == self.meta(),
            r.snapshot() == self.snapshot(),
            r.cursor() == self.cursor(),
            r.in_pass() == self.in_pass(),
            w.modeled() ==> r.store_contents() == Some(w.contents()),
            !w.modeled() ==> r.store_contents() is None,
    {
        let Sequencer { metadata, items, item_keys, crsr, limit, default_cache, cache: _ } = self;
        Sequencer { metadata, items, item_keys, crsr, limit, default_cache, cache: Some(w) }
    }

    /// Set the aggregated feed's author by name; returns whether the
    /// metadata is now complete.
    pub fn set_author(&mut self, name: &str) -> (r: bool)
        requires
            old(self).wf(),
        ensures
            final(self).wf(),
            final(self).meta() == (MetaView {
                author: crate::entry::PersonView { name: name@, email: None, uri: None },
                author_set: true,
                ..old(self).meta()
            }),
            r == final(self).meta().complete(),
            final(self).staged() == old(self).staged(),
            final(self).snapshot() == old(self).snapshot(),
            final(self).cursor() == old(self).cursor(),
            final(self).in_pass() == old(self).in_pass(),
            final(self).store_contents() == old(self).store_contents(),
    {
        self.metadata.set_author(
            Person { name: name.to_owned(), email: None, uri: None },
        )
    }

    /// Set the aggregated feed's title; returns whether the metadata is now
    /// complete.
    pub fn set_title(&mut self, title: &str) -> (r: bool)
        requires
            old(self).wf(),
        ensures
            final(self).wf(),
            final(self).meta() == (MetaView {
                title: title@,
                title_set: true,
                ..old(self).meta()
            }),
            r == final(self).meta().complete(),
            final(self).staged() == old(self).staged(),
            final(self).snapshot() == old(self).snapshot(),
            final(self).cursor() == old(self).cursor(),
            final(self).in_pass() == old(self).in_pass(),
            final(self).store_contents() == old(self).store_contents(),
    {
        self.metadata.set_title(title.to_owned())
    }

    /// Present one entry: compute its digest, reject it if an entry with
    /// that digest is already staged, else stage its serialized form.
    /// The staging store, if one is configured, is opened for the entry's
    /// identifier first, and closed again only when the entry is accepted:
    /// on a duplicate the sink stays open, as it always has.
    pub fn add(&mut self, entry: Entry) -> (r: bool)
        requires
            old(self).wf(),
        ensures
            final(self).wf(),
            r == !old(self).staged().contains_key(digest_of(entry@)),
            final(self).staged() == spec_add_entry(old(self).staged(), entry@),
            r && xml_safe(entry@) ==> parses_as_entry(entry_xml_of(entry@)),
            final(self).meta() == old(self).meta(),
            final(self).snapshot() == old(self).snapshot(),
            final(self).cursor() == old(self).cursor(),
            final(self).in_pass() == old(self).in_pass(),
            final(self).store_contents() is Some <==> old(self).store_contents() is Some,
            !r ==> (old(self).store_contents() matches Some(m) ==> final(self).store_contents()
                == Some(opened_contents(m, entry@.id))),
            r ==> (old(self).store_contents() matches Some(m) ==> (final(self).store_contents()
                matches Some(m2) && (m2 == opened_contents(m, entry@.id) || m2 == opened_contents(
                m,
                entry@.id,
            ).remove(entry@.id)))),
    {
        let id: String = entry.id.clone();
        match &mut self.cache {
            Some(c) => {
                c.open(id);
            },
            None => {},
        }
        let id: String = entry.id.clone();
        let o = SequencerEntry::new(entry);
        proof {
            assert(old(self).staged().contains_key(o.digest) == old(self).items@.contains_key(
                o.digest,
            ));
        }
        if self.items.contains_key(&o.digest) {
            return false;
        }
        let b = o.to_bytes();
        self.items.insert(o.digest, b);
        proof {
            assert(self.staged() =~= old(self).staged().insert(
                o.digest,
                entry_xml_of(o.entry_view()),
            ));
        }
        match &mut self.cache {
            Some(c) => {
                c.close(id);
            },
            None => {},
        }
        true
    }

    /// Present every entry of a parsed feed, in source order.  The count
    /// returned is the number of entries presented, duplicates included,
    /// not the number accepted.
    pub fn add_from(&mut self, feed: Feed) -> (c: i64)
        requires
            old(self).wf(),
            feed@.entries.len() <= i64::MAX,
        ensures
            final(self).wf(),
            c == feed@.entries.len(),
            final(self).staged() == spec_add_all(old(self).staged(), feed@.entries),
            (forall|i: int| 0 <= i < feed@.entries.len() ==> xml_safe(#[trigger] feed@.entries[i]))
                ==> (forall|k: u64|
                #![auto]
                final(self).staged().contains_key(k) && !old(self).staged().contains_key(k)
                    ==> parses_as_entry(final(self).staged()[k])),
            final(self).meta() == old(self).meta(),
            final(self).snapshot() == old(self).snapshot(),
            final(self).cursor() == old(self).cursor(),
            final(self).in_pass() == old(self).in_pass(),
            final(self).store_contents() is Some <==> old(self).store_contents() is Some,
    {
        let ghost m0 = self.staged();
        let ghost es0 = feed@.entries;
        let ghost mv0 = self.meta();
        let ghost snap0 = self.snapshot();
        let ghost cur0 = self.cursor();
        let ghost pass0 = self.in_pass();
        let ghost store0_some = self.store_contents() is Some;
        let mut entries = feed.entries;
        proof {
            assert(entries@.map_values(|e: Entry| e@) =~= es0);
            assert(entries@.map_values(|e: Entry| e@) =~= es0.skip(0));
        }
        let mut c: i64 = 0;
        while entries.len() > 0
            invariant
                self.wf(),
                self.meta() == mv0,
                self.snapshot() == snap0,
                self.cursor() == cur0,
                self.in_pass() == pass0,
                (self.store_contents() is Some) == store0_some,
                (forall|i: int| 0 <= i < es0.len() ==> xml_safe(#[trigger] es0[i])) ==> (forall|
                k: u64|
                    #![auto]
                    self.staged().contains_key(k) && !m0.contains_key(k) ==> parses_as_entry(
                        self.staged()[k],
                    )),
                spec_add_all(m0, es0) == spec_add_all(
                    self.staged(),
                    entries@.map_values(|e: Entry| e@),
                ),
                entries@.map_values(|e: Entry| e@) =~= es0.skip(c as int),
                c == es0.len() - entries@.len(),
                entries@.len() <= es0.len(),
                es0.len() <= i64::MAX,
            decreases entries@.len(),
        {
            let ghost before = entries@;
            let e = entries.remove(0);
            proof {
                assert(entries@ =~= before.drop_first());
                assert(entries@.map_values(|x: Entry| x@) =~= before.map_values(
                    |x: Entry| x@,
                ).drop_first());
                assert(before.map_values(|x: Entry| x@).first() == e@);
                assert(es0.skip(c as int).first() == es0[c as int]);
                assert(es0.skip(c as int).drop_first() =~= es0.skip(c as int + 1));
                assert(e@ == es0[c as int]);
            }
            let ghost staged_before = self.staged();
            let added = self.add(e);
            proof {
                if forall|i: int| 0 <= i < es0.len() ==> xml_safe(#[trigger] es0[i]) {
                    assert(xml_safe(es0[c as int]));
                    assert forall|k: u64|
                        #![auto]
                        self.staged().contains_key(k) && !m0.contains_key(k)
                            implies parses_as_entry(self.staged()[k]) by {
                        if !staged_before.contains_key(k) {
                            assert(added && k == digest_of(e@));
                        }
                    }
                }
            }
            c = c + 1;
        }
        proof {
            assert(entries@.map_values(|e: Entry| e@).len() == 0);
        }
        c
    }

    /// Yield the next staged blob of the current pass, in ascending digest
    /// order.
    ///
    /// Outside a pass, the current digest keys are snapshotted, sorted; the
    /// snapshot then stays fixed for the whole pass, so entries added during
    /// a pass only appear in the next one.  Reaching the end yields `None`
    /// once and resets the cursor so a fresh pass can begin.
    pub fn next(&mut self) -> (r: Option<Vec<u8>>)
        requires
            old(self).wf(),
        ensures
            final(self).wf(),
            final(self).staged() == old(self).staged(),
            final(self).meta() == old(self).meta(),
            final(self).store_contents() == old(self).store_contents(),
            !old(self).in_pass() ==> {
                &&& is_sorted_keys(old(self).staged(), final(self).snapshot())
                &&& (final(self).snapshot().len() == 0 ==> r is None && !final(self).in_pass()
                    && final(self).cursor() == 0)
                &&& (final(self).snapshot().len() > 0 ==> final(self).in_pass()
                    && final(self).cursor() == 1 && (r matches Some(v) && v@ == old(
                self).staged()[final(self).snapshot()[0]]))
            },
            old(self).in_pass() && old(self).cursor() < old(self).snapshot().len() ==> {
                &&& final(self).in_pass()
                &&& final(self).snapshot() == old(self).snapshot()
                &&& final(self).cursor() == old(self).cursor() + 1
                &&& (r matches Some(v) && v@ == old(self).staged()[old(self).snapshot()[old(
                self).cursor()]])
            },
            old(self).in_pass() && old(self).cursor() == old(self).snapshot().len() ==> r is None
                && !final(self).in_pass() && final(self).cursor() == 0 && final(self).snapshot()
                == old(self).snapshot(),
    {
        proof {
            assert forall|k: u64| #![auto]
                self.staged().contains_key(k) <==> self.items@.contains_key(k) by {}
        }
        if self.limit == 0 {
            let keys = sorted_keys(&self.items);
            self.item_keys = keys;
            self.limit = self.item_keys.len();
            proof {
                assert forall|i: int|
                    0 <= i < self.item_keys@.len() implies self.items@.contains_key(
                    self.item_keys@[i],
                ) by {
                    assert(self.item_keys@.contains(self.item_keys@[i]));
                }
            }
        }
        if self.limit == 0 {
            return None;
        }
        if self.crsr == self.limit {
            self.limit = 0;
            self.crsr = 0;
            return None;
        }
        proof {
            assert(self.items@.contains_key(self.item_keys@[self.crsr as int]));
        }
        let c: u64 = self.item_keys[self.crsr];
        self.crsr = self.crsr + 1;
        let v: Vec<u8> = match self.items.get(&c) {
            Some(w) => copy_bytes(w),
            None => {
                proof {
                    assert(false);
                }
                Vec::new()
            },
        };
        proof {
            assert(old(self).staged()[c] == old(self).items@[c]@);
        }
        Some(v)
    }

    /// Finalize: build the aggregated feed document around the staged
    /// entries.
    ///
    /// Fails with `WriteError` if the metadata is not complete and with
    /// `CacheError` if a pending staged blob does not parse back into an
    /// entry; otherwise it succeeds and returns the number of entries
    /// written together with the document: the pending staged blobs in
    /// ascending digest order, under the fixed placeholder id, the
    /// metadata's title and single author, and the wall-clock `updated`
    /// stamp (the document goes into an in-memory buffer, whose write
    /// cannot fail).
    pub fn write_to(&mut self) -> (r: Result<(Vec<u8>, usize), Error>)
        requires
            old(self).wf(),
        ensures
            final(self).wf(),
            final(self).staged() == old(self).staged(),
            final(self).meta() == old(self).meta(),
            final(self).store_contents() == old(self).store_contents(),
            r is Ok ==> old(self).meta().complete() && old(self).all_pending_parse(),
            !old(self).meta().complete() ==> r == Err::<(Vec<u8>, usize), Error>(
                Error::WriteError,
            ) && final(self).snapshot() == old(self).snapshot() && final(self).cursor() == old(
                self,
            ).cursor() && final(self).in_pass() == old(self).in_pass(),
            old(self).meta().complete() && !old(self).all_pending_parse() ==> r == Err::<
                (Vec<u8>, usize),
                Error,
            >(Error::CacheError),
            old(self).meta().complete() && old(self).all_pending_parse() ==> {
                &&& !final(self).in_pass()
                &&& final(self).cursor() == 0
                &&& (if old(self).in_pass() {
                    final(self).snapshot() == old(self).snapshot()
                } else {
                    is_sorted_keys(old(self).staged(), final(self).snapshot())
                })
                &&& (r matches Ok(p) && p.1 == old(self).will_emit_count() && (exists|t: i64|
                    p.0@ == feed_doc_of(
                        final_feed_head(old(self).meta(), t),
                        final(self).snapshot().skip(
                            if old(self).in_pass() {
                                old(self).cursor()
                            } else {
                                0int
                            },
                        ).map_values(|k: u64| old(self).staged()[k]),
                    )))
            },
    {
        let mut feed = Feed {
            id: "urn:uuid:60a76c80-d399-11d9-b91C-0003939e0af6".to_owned(),
            title: String::new(),
            subtitle: None,
            updated: now_ts(),
            authors: Vec::new(),
            entries: Vec::new(),
        };
        match self.metadata.apply(&mut feed) {
            Err(_) => {
                return Err(Error::WriteError);
            },
            Ok(_) => {},
        }
        let ghost m0 = self.staged();
        let ghost mv0 = self.meta();
        let ghost started_pass = self.in_pass();
        let ghost s0 = self.snapshot();
        let ghost c0: int = self.cursor();
        let ghost sc0 = self.store_contents();
        let ghost start: int = if started_pass {
            c0
        } else {
            0int
        };
        let mut out_blobs: Vec<Vec<u8>> = Vec::new();
        let mut count: usize = 0;
        loop
            invariant_except_break
                self.in_pass() ==> {
                    &&& (if started_pass {
                        self.snapshot() == s0 && self.cursor() >= c0
                    } else {
                        is_sorted_keys(m0, self.snapshot())
                    })
                    &&& count == self.cursor() - (if started_pass { c0 } else { 0int })
                    &&& forall|i: int|
                        #![auto]
                        (if started_pass { c0 } else { 0int }) <= i < self.cursor()
                            ==> parses_as_entry(m0[self.snapshot()[i]])
                },
                self.in_pass() ==> out_blobs@.map_values(|b: Vec<u8>| b@) =~= self.snapshot().subrange(
                    start,
                    self.cursor(),
                ).map_values(|k: u64| m0[k]),
                !self.in_pass() ==> count == 0 && !started_pass && self.snapshot() == s0
                    && self.cursor() == 0 && c0 == 0 && out_blobs@.len() == 0,
            invariant
                self.wf(),
                self.staged() == m0,
                self.meta() == mv0,
                self.store_contents() == sc0,
                sc0 == old(self).store_contents(),
                m0 == old(self).staged(),
                mv0 == old(self).meta(),
                mv0.complete(),
                started_pass == old(self).in_pass(),
                s0 == old(self).snapshot(),
                c0 == old(self).cursor(),
                start == (if started_pass { c0 } else { 0int }),
            ensures
                !self.in_pass(),
                self.cursor() == 0,
                started_pass ==> self.snapshot() == s0 && count == s0.len() - c0 && (forall|
                i: int|
                    #![auto]
                    c0 <= i < s0.len() ==> parses_as_entry(m0[s0[i]])),
                !started_pass ==> is_sorted_keys(m0, self.snapshot()) && count == self.snapshot().len()
                    && (forall|i: int|
                    #![auto]
                    0 <= i < self.snapshot().len() ==> parses_as_entry(m0[self.snapshot()[i]])),
                out_blobs@.map_values(|b: Vec<u8>| b@) =~= self.snapshot().skip(start).map_values(
                    |k: u64| m0[k],
                ),
            decreases
                    (if self.in_pass() { 0int } else { 1int }),
                    (if self.in_pass() { self.snapshot().len() - self.cursor() + 1 } else { 0int }),
        {
            let ghost pre = *self;
            let nx = self.next();
            match nx {
                None => {
                    proof {
                        if pre.in_pass() {
                            assert(self.snapshot().subrange(start, self.snapshot().len() as int)
                                =~= self.snapshot().skip(start));
                        } else {
                            assert(self.snapshot().skip(start).map_values(|k: u64| m0[k])
                                =~= Seq::<Seq<u8>>::empty());
                            assert(out_blobs@.map_values(|b: Vec<u8>| b@) =~= Seq::<
                                Seq<u8>,
                            >::empty());
                        }
                    }
                    break ;
                },
                Some(v) => {
                    match parse_entry(&v) {
                        Some(_a) => {},
                        None => {
                            proof {
                                let i = self.cursor() - 1;
                                assert(v@ == m0[self.snapshot()[i]]);
                                if started_pass {
                                    assert(c0 <= i < s0.len());
                                    assert(!parses_as_entry(m0[s0[i]]));
                                    assert(!old(self).all_pending_parse());
                                } else {
                                    let k = self.snapshot()[i];
                                    assert(self.snapshot().contains(k));
                                    assert(m0.contains_key(k) && !parses_as_entry(m0[k]));
                                    assert(!old(self).all_pending_parse());
                                }
                            }
                            return Err(Error::CacheError);
                        },
                    }
                    let ghost pre_blobs = out_blobs@;
                    out_blobs.push(v);
                    count = count + 1;
                    proof {
                        let cur = self.cursor();
                        assert(out_blobs@.map_values(|b: Vec<u8>| b@) =~= pre_blobs.map_values(
                            |b: Vec<u8>| b@,
                        ).push(v@));
                        assert(v@ == m0[self.snapshot()[cur - 1]]);
                        if pre.in_pass() {
                            assert(pre.cursor() == cur - 1 && pre.snapshot() == self.snapshot());
                            assert(pre_blobs.map_values(|b: Vec<u8>| b@) =~= self.snapshot().subrange(
                                start,
                                cur - 1,
                            ).map_values(|k: u64| m0[k]));
                        } else {
                            assert(cur == 1 && start == 0);
                            assert(pre_blobs.map_values(|b: Vec<u8>| b@) =~= Seq::<
                                Seq<u8>,
                            >::empty());
                            assert(self.snapshot().subrange(start, cur - 1).map_values(
                                |k: u64| m0[k],
                            ) =~= Seq::<Seq<u8>>::empty());
                        }
                        assert(self.snapshot().subrange(start, cur - 1).push(
                            self.snapshot()[cur - 1],
                        ) =~= self.snapshot().subrange(start, cur));
                        assert(out_blobs@.map_values(|b: Vec<u8>| b@) =~= self.snapshot().subrange(
                            start,
                            cur,
                        ).map_values(|k: u64| m0[k]));
                    }
                },
            }
        }
        proof {
            if started_pass {
                assert(old(self).all_pending_parse());
            } else {
                let s = self.snapshot();
                assert(forall|i: int, j: int| 0 <= i < j < s.len() ==> s[i] != s[j]);
                assert(s.no_duplicates());
                s.unique_seq_to_set();
                assert(s.to_set() =~= m0.dom());
                assert(count == m0.dom().len());
                assert forall|k: u64| #![auto] m0.contains_key(k) implies parses_as_entry(
                    m0[k],
                ) by {
                    assert(s.contains(k));
                    let i = choose|i: int| 0 <= i < s.len() && s[i] == k;
                    assert(parses_as_entry(m0[s[i]]));
                }
                assert(old(self).all_pending_parse());
            }
        }
        let b = write_feed(&feed, out_blobs);
        proof {
            assert(feed@.entries =~= Seq::<EntryView>::empty());
            assert(feed@ =~= final_feed_head(mv0, feed@.updated));
        }
        Ok((b, count))
    }
}

impl Sequencer<MemCache> {
    /// A fresh sequencer: nothing staged, no pass under way, metadata not
    /// yet complete, and no staging store configured.
    pub fn new() -> (r: Sequencer<MemCache>)
        ensures
            r.wf(),
            r.staged() == Map::<u64, Seq<u8>>::empty(),
            !r.in_pass(),
            r.cursor() == 0,
            r.snapshot() == Seq::<u64>::empty(),
            !r.meta().author_set,
            !r.meta().title_set,
            r.store_contents() is None,
    {
        let r = Sequencer {
            metadata: FeedMetadata::default(),
            items: HashMap::new(),
            item_keys: Vec::new(),
            crsr: 0,
            limit: 0,
            default_cache: CacheWriter::new(),
            cache: None,
        };
        proof {
            assert(r.staged() =~= Map::<u64, Seq<u8>>::empty());
        }
        r
    }
}

/// Presenting the same logical entry twice stores it once: with equal
/// identifiers and equal resolved timestamps the digests coincide, the first
/// presentation stages the entry, and the second leaves the staging map
/// unchanged (and so, by `add`'s contract, returns false).
pub proof fn lemma_dedup(m: Map<u64, Seq<u8>>, a: EntryView, b: EntryView)
    requires
        a.id == b.id,
        resolved_ts(a) == resolved_ts(b),
        !m.contains_key(digest_of(a)),
    ensures
        spec_add_entry(m, a) == m.insert(digest_of(a), entry_xml_of(a)),
        spec_add_entry(m, a).contains_key(digest_of(b)),
        spec_add_entry(spec_add_entry(m, a), b) == spec_add_entry(m, a),
{
    crate::digest::lemma_digest_same(a, b);
}

/// Two entries with the same identifier but different resolved timestamps
/// (both within the digest's 32-bit range) have different digests, so both
/// presentations stage their entry.
pub proof fn lemma_distinct_timestamps(
    m: Map<u64, Seq<u8>>,
    a: EntryView,
    b: EntryView,
    t1: i64,
    t2: i64,
)
    requires
        a.id == b.id,
        resolved_ts(a) == Some(t1),
        resolved_ts(b) == Some(t2),
        t1 != t2,
        0 <= t1 < 0x1_0000_0000i64,
        0 <= t2 < 0x1_0000_0000i64,
        !m.contains_key(digest_of(a)),
        !m.contains_key(digest_of(b)),
    ensures
        spec_add_entry(m, a) == m.insert(digest_of(a), entry_xml_of(a)),
        spec_add_entry(spec_add_entry(m, a), b) == spec_add_entry(m, a).insert(
            digest_of(b),
            entry_xml_of(b),
        ),
{
    crate::digest::lemma_digest_distinct(a, b, t1, t2);
}

/// Emission order is chronological: for entries with ascending resolved
/// timestamps (all within the digest's 32-bit range, as timestamps of one
/// era are) the digests ascend too, and a full pass yields staged blobs in
/// ascending digest order (`next`'s snapshot is sorted).
pub proof fn lemma_chronological_order(
    a: EntryView,
    b: EntryView,
    c: EntryView,
    t1: i64,
    t2: i64,
    t3: i64,
)
    requires
        resolved_ts(a) == Some(t1),
        resolved_ts(b) == Some(t2),
        resolved_ts(c) == Some(t3),
        0 <= t1 < t2 < t3 < 0x1_0000_0000i64,
    ensures
        digest_of(a) < digest_of(b) < digest_of(c),
{
    crate::digest::lemma_digest_monotonic(a, b, t1, t2);
    crate::digest::lemma_digest_monotonic(b, c, t2, t3);
}

/// The run configuration a surrounding program hands over: the feed sources
/// and the aggregated feed's identity.
pub struct Config {
    pub urls: Vec<String>,
    pub author: String,
    pub title: String,
    pub id: String,
}

impl Config {
    /// Bundle the aggregated feed's identity and the source locations.
    pub fn new(id: String, title: String, author: String, urls: Vec<String>) -> (r: Config)
        ensures
            r.id == id,
            r.title == title,
            r.author == author,
            r.urls == urls,
    {
        Config { urls, title, author, id }
    }
}

} // verus!
