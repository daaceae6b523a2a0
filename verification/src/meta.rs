//! Feed-level metadata and the rule that it must be complete before use.
//!
//! The aggregated feed's author and title must both be set explicitly before
//! the metadata may be applied to a feed; `force` is an escape hatch for test
//! harnesses that marks both as set.

use vstd::prelude::*;

use crate::entry::Feed;
use crate::entry::FeedView;
use crate::entry::Person;
use crate::entry::PersonView;

verus! {

/// The failure incomplete metadata causes.
#[derive(Debug)]
pub enum Error {
    /// Author or title has not been set before finalization.
    IncompleteFeedMetadata,
}

/// The aggregated feed's required metadata, with one completeness fact per
/// required field, tracked in a two-bit set: bit 0 for the author, bit 1 for
/// the title.
pub struct FeedMetadata {
    pub author: Person,
    pub title: String,
    pub id: String,
    flag: u8,
}

/// The mathematical value of a `FeedMetadata`: the fields and the two
/// completeness facts.
#[verifier::ext_equal]
pub ghost struct MetaView {
    pub author: PersonView,
    pub title: Seq<char>,
    pub id: Seq<char>,
    pub author_set: bool,
    pub title_set: bool,
}

impl MetaView {
    /// The metadata is complete exactly when both facts hold.
    pub open spec fn complete(self) -> bool {
        self.author_set && self.title_set
    }
}

impl View for FeedMetadata {
    type V = MetaView;

    closed spec fn view(&self) -> MetaView {
        MetaView {
            author: self.author@,
            title: self.title@,
            id: self.id@,
            author_set: self.flag & 1 == 1,
            title_set: self.flag & 2 == 2,
        }
    }
}

/// Relies on uuid's `Uuid::new_v4` and its hyphenated text form, which is
/// always 36 characters long; nothing more is assumed of a random id.
#[verifier::external_body]
fn new_v4_string() -> (r: String)
    ensures
        r@.len() == 36,
{
    uuid::Uuid::new_v4().to_string()
}

impl FeedMetadata {
    /// Internal well-formedness: only the two defined bits of the flag set
    /// may be used.
    pub closed spec fn wf(&self) -> bool {
        self.flag <= 3
    }

    /// Mark both facts as set without supplying values; intended for test
    /// harnesses only.
    pub fn force(&mut self)
        requires
            old(self).wf(),
        ensures
            final(self).wf(),
            final(self)@ == (MetaView { author_set: true, title_set: true, ..old(self)@ }),
    {
        let f = self.flag;
        proof {
            assert((f | 3) <= 3 && ((f | 3) & 1) == 1 && ((f | 3) & 2) == 2) by (bit_vector)
                requires
                    f <= 3,
            ;
        }
        self.flag = self.flag | 3;
    }

    fn check_complete(&self) -> (r: bool)
        requires
            self.wf(),
        ensures
            r == self@.complete(),
    {
        let f = self.flag;
        proof {
            assert((f >= 3) == (((f & 1) == 1) && ((f & 2) == 2))) by (bit_vector)
                requires
                    f <= 3,
            ;
        }
        self.flag >= 3
    }

    /// Set the author and record that fact; returns whether the metadata is
    /// now complete.
    pub fn set_author(&mut self, author: Person) -> (r: bool)
        requires
            old(self).wf(),
        ensures
            final(self).wf(),
            final(self)@ == (MetaView { author: author@, author_set: true, ..old(self)@ }),
            r == final(self)@.complete(),
    {
        let f = self.flag;
        proof {
            assert((f | 1) <= 3 && ((f | 1) & 1) == 1 && ((f | 1) & 2) == (f & 2)) by (bit_vector)
                requires
                    f <= 3,
            ;
        }
        self.author = author;
        self.flag = self.flag | 1;
        self.check_complete()
    }

    /// Set the title and record that fact; returns whether the metadata is
    /// now complete.
    pub fn set_title(&mut self, title: String) -> (r: bool)
        requires
            old(self).wf(),
        ensures
            final(self).wf(),
            final(self)@ == (MetaView { title: title@, title_set: true, ..old(self)@ }),
            r == final(self)@.complete(),
    {
        let f = self.flag;
        proof {
            assert((f | 2) <= 3 && ((f | 2) & 2) == 2 && ((f | 2) & 1) == (f & 1)) by (bit_vector)
                requires
                    f <= 3,
            ;
        }
        self.title = title;
        self.flag = self.flag | 2;
        self.check_complete()
    }

    /// Apply the metadata to a feed: refused until both author and title have
    /// been set; on success the feed carries this single author and this
    /// title, and nothing else of it changes.
    pub fn apply(&self, feed: &mut Feed) -> (r: Result<(), Error>)
        requires
            self.wf(),
        ensures
            r is Ok <==> self@.complete(),
            !self@.complete() ==> r == Err::<(), Error>(Error::IncompleteFeedMetadata)
                && final(feed)@ == old(feed)@,
            self@.complete() ==> final(feed)@ == (FeedView {
                title: self@.title,
                authors: seq![self@.author],
                ..old(feed)@
            }),
    {
        if !self.check_complete() {
            return Err(Error::IncompleteFeedMetadata);
        }
        let mut persons = Vec::<Person>::new();
        persons.push(self.author.duplicate());
        feed.authors = persons;
        feed.title = self.title.clone();
        proof {
            assert(feed@.authors =~= seq![self@.author]);
            assert(feed@ =~= (FeedView {
                title: self@.title,
                authors: seq![self@.author],
                ..old(feed)@
            }));
        }
        Ok(())
    }
}

impl Default for FeedMetadata {
    /// Fresh metadata: placeholder author and title, a random UUID id, and
    /// neither fact set.
    fn default() -> (r: FeedMetadata)
        ensures
            r.wf(),
            !r@.author_set,
            !r@.title_set,
            r@.author.name == "?"@,
            r@.title == "?"@,
            r@.id.len() == 36,
    {
        proof {
            assert((0u8 & 1) != 1 && (0u8 & 2) != 2) by (bit_vector);
        }
        FeedMetadata {
            author: Person {
                name: "?".to_owned(),
                email: Some("?".to_owned()),
                uri: Some("?".to_owned()),
            },
            title: "?".to_owned(),
            id: new_v4_string(),
            flag: 0,
        }
    }
}

} // verus!
