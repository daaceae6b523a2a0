//! The common entry and feed shape that every source is normalized into.
//!
//! Every field that the engine reads is held as a plain value: strings for
//! identifiers and text, `i64` UNIX timestamps for dates.  The XML form of
//! these values is produced and consumed by the feed-document library behind
//! the wrappers in `xml`.

use vstd::prelude::*;

verus! {

/// A person associated with a feed: author or contributor.
#[derive(Clone, Debug)]
pub struct Person {
    pub name: String,
    pub email: Option<String>,
    pub uri: Option<String>,
}

/// The mathematical value of a `Person`.
#[verifier::ext_equal]
pub ghost struct PersonView {
    pub name: Seq<char>,
    pub email: Option<Seq<char>>,
    pub uri: Option<Seq<char>>,
}

impl Person {
    /// An explicit copy whose value equals this one's.
    pub fn duplicate(&self) -> (r: Person)
        ensures
            r@ == self@,
    {
        Person {
            name: self.name.clone(),
            email: match &self.email {
                Some(s) => Some(s.clone()),
                None => None,
            },
            uri: match &self.uri {
                Some(s) => Some(s.clone()),
                None => None,
            },
        }
    }
}

impl View for Person {
    type V = PersonView;

    open spec fn view(&self) -> PersonView {
        PersonView {
            name: self.name@,
            email: match self.email {
                Some(s) => Some(s@),
                None => None,
            },
            uri: match self.uri {
                Some(s) => Some(s@),
                None => None,
            },
        }
    }
}

/// A category assigned to an entry.
#[derive(Clone, Debug)]
pub struct Category {
    pub term: String,
    pub scheme: Option<String>,
    pub label: Option<String>,
}

/// The mathematical value of a `Category`.
#[verifier::ext_equal]
pub ghost struct CategoryView {
    pub term: Seq<char>,
    pub scheme: Option<Seq<char>>,
    pub label: Option<Seq<char>>,
}

impl View for Category {
    type V = CategoryView;

    open spec fn view(&self) -> CategoryView {
        CategoryView {
            term: self.term@,
            scheme: match self.scheme {
                Some(s) => Some(s@),
                None => None,
            },
            label: match self.label {
                Some(s) => Some(s@),
                None => None,
            },
        }
    }
}

/// The content of an entry: an inline body with a content type, and an
/// optional reference to an external source.
#[derive(Clone, Debug)]
pub struct Content {
    pub body: Option<String>,
    pub ctype: Option<String>,
    pub src: Option<String>,
}

/// The mathematical value of a `Content`.
#[verifier::ext_equal]
pub ghost struct ContentView {
    pub body: Option<Seq<char>>,
    pub ctype: Option<Seq<char>>,
    pub src: Option<Seq<char>>,
}

impl View for Content {
    type V = ContentView;

    open spec fn view(&self) -> ContentView {
        ContentView {
            body: match self.body {
                Some(s) => Some(s@),
                None => None,
            },
            ctype: match self.ctype {
                Some(s) => Some(s@),
                None => None,
            },
            src: match self.src {
                Some(s) => Some(s@),
                None => None,
            },
        }
    }
}

/// One syndication item in the common shape.
///
/// `id` is the source-assigned identifier (possibly empty); `published` and
/// `updated` are UNIX timestamps in seconds where the source supplied a date.
#[derive(Clone, Debug)]
pub struct Entry {
    pub id: String,
    pub title: String,
    pub published: Option<i64>,
    pub updated: Option<i64>,
    pub summary: Option<String>,
    pub content: Option<Content>,
    pub categories: Vec<Category>,
}

/// The mathematical value of an `Entry`.
#[verifier::ext_equal]
pub ghost struct EntryView {
    pub id: Seq<char>,
    pub title: Seq<char>,
    pub published: Option<i64>,
    pub updated: Option<i64>,
    pub summary: Option<Seq<char>>,
    pub content: Option<ContentView>,
    pub categories: Seq<CategoryView>,
}

impl View for Entry {
    type V = EntryView;

    open spec fn view(&self) -> EntryView {
        EntryView {
            id: self.id@,
            title: self.title@,
            published: self.published,
            updated: self.updated,
            summary: match self.summary {
                Some(s) => Some(s@),
                None => None,
            },
            content: match self.content {
                Some(c) => Some(c@),
                None => None,
            },
            categories: self.categories@.map_values(|c: Category| c@),
        }
    }
}

impl EntryView {
    /// The value of an entry none of whose fields has been filled in.
    pub open spec fn empty() -> EntryView {
        EntryView {
            id: Seq::empty(),
            title: Seq::empty(),
            published: None,
            updated: None,
            summary: None,
            content: None,
            categories: Seq::empty(),
        }
    }
}

impl Default for Entry {
    fn default() -> (r: Entry)
        ensures
            r@ == EntryView::empty(),
    {
        let r = Entry {
            id: String::new(),
            title: String::new(),
            published: None,
            updated: None,
            summary: None,
            content: None,
            categories: Vec::new(),
        };
        proof {
            assert(r@.categories =~= Seq::<CategoryView>::empty());
            assert(r@ =~= EntryView::empty());
        }
        r
    }
}

/// An aggregated feed in the common shape.
#[derive(Clone, Debug)]
pub struct Feed {
    pub id: String,
    pub title: String,
    pub subtitle: Option<String>,
    pub updated: i64,
    pub authors: Vec<Person>,
    pub entries: Vec<Entry>,
}

impl Default for Feed {
    fn default() -> (r: Feed)
        ensures
            r@.id == Seq::<char>::empty(),
            r@.title == Seq::<char>::empty(),
            r@.subtitle is None,
            r@.updated == 0,
            r@.authors == Seq::<PersonView>::empty(),
            r@.entries == Seq::<EntryView>::empty(),
    {
        let r = Feed {
            id: String::new(),
            title: String::new(),
            subtitle: None,
            updated: 0,
            authors: Vec::new(),
            entries: Vec::new(),
        };
        proof {
            assert(r@.authors =~= Seq::<PersonView>::empty());
            assert(r@.entries =~= Seq::<EntryView>::empty());
        }
        r
    }
}

/// The mathematical value of a `Feed`.
#[verifier::ext_equal]
pub ghost struct FeedView {
    pub id: Seq<char>,
    pub title: Seq<char>,
    pub subtitle: Option<Seq<char>>,
    pub updated: i64,
    pub authors: Seq<PersonView>,
    pub entries: Seq<EntryView>,
}

impl View for Feed {
    type V = FeedView;

    open spec fn view(&self) -> FeedView {
        FeedView {
            id: self.id@,
            title: self.title@,
            subtitle: match self.subtitle {
                Some(s) => Some(s@),
                None => None,
            },
            updated: self.updated,
            authors: self.authors@.map_values(|p: Person| p@),
            entries: self.entries@.map_values(|e: Entry| e@),
        }
    }
}

} // verus!
