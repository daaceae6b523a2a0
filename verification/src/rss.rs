//! The RSS-to-Atom field-translation layer.
//!
//! An RSS channel and its items arrive as plain values; each item is turned
//! into an entry in the common shape.  The publication date is resolved by a
//! cascade of date formats over the item's own date field and its
//! Dublin-Core date extensions; an item with no resolvable date fails
//! translation.

use vstd::prelude::*;

use crate::Error;
use crate::clock::now_ts;
use crate::entry::Category;
use crate::entry::CategoryView;
use crate::entry::Content;
use crate::entry::ContentView;
use crate::entry::Entry;
use crate::entry::EntryView;
use crate::entry::Feed;
use crate::entry::PersonView;
use crate::xml::xml_safe;

verus! {

/// An RSS item's unique identifier.
#[derive(Clone, Debug)]
pub struct RssGuid {
    pub value: String,
    pub permalink: bool,
}

/// The mathematical value of an `RssGuid`.
#[verifier::ext_equal]
pub ghost struct RssGuidView {
    pub value: Seq<char>,
    pub permalink: bool,
}

impl View for RssGuid {
    type V = RssGuidView;

    open spec fn view(&self) -> RssGuidView {
        RssGuidView { value: self.value@, permalink: self.permalink }
    }
}

/// A category of an RSS item.
#[derive(Clone, Debug)]
pub struct RssCategory {
    pub name: String,
    pub domain: Option<String>,
}

/// The mathematical value of an `RssCategory`.
#[verifier::ext_equal]
pub ghost struct RssCategoryView {
    pub name: Seq<char>,
    pub domain: Option<Seq<char>>,
}

impl View for RssCategory {
    type V = RssCategoryView;

    open spec fn view(&self) -> RssCategoryView {
        RssCategoryView {
            name: self.name@,
            domain: match self.domain {
                Some(s) => Some(s@),
                None => None,
            },
        }
    }
}

/// One RSS item, reduced to the fields the translation reads.
#[derive(Clone, Debug)]
pub struct RssItem {
    pub title: Option<String>,
    pub link: Option<String>,
    pub description: Option<String>,
    pub guid: Option<RssGuid>,
    pub pub_date: Option<String>,
    pub source_url: Option<String>,
    pub content: Option<String>,
    pub dc_dates: Vec<String>,
    pub categories: Vec<RssCategory>,
}

/// The mathematical value of an `RssItem`.
#[verifier::ext_equal]
pub ghost struct RssItemView {
    pub title: Option<Seq<char>>,
    pub link: Option<Seq<char>>,
    pub description: Option<Seq<char>>,
    pub guid: Option<RssGuidView>,
    pub pub_date: Option<Seq<char>>,
    pub source_url: Option<Seq<char>>,
    pub content: Option<Seq<char>>,
    pub dc_dates: Seq<Seq<char>>,
    pub categories: Seq<RssCategoryView>,
}

impl View for RssItem {
    type V = RssItemView;

    open spec fn view(&self) -> RssItemView {
        RssItemView {
            title: match self.title {
                Some(s) => Some(s@),
                None => None,
            },
            link: match self.link {
                Some(s) => Some(s@),
                None => None,
            },
            description: match self.description {
                Some(s) => Some(s@),
                None => None,
            },
            guid: match self.guid {
                Some(g) => Some(g@),
                None => None,
            },
            pub_date: match self.pub_date {
                Some(s) => Some(s@),
                None => None,
            },
            source_url: match self.source_url {
                Some(s) => Some(s@),
                None => None,
            },
            content: match self.content {
                Some(s) => Some(s@),
                None => None,
            },
            dc_dates: self.dc_dates@.map_values(|s: String| s@),
            categories: self.categories@.map_values(|c: RssCategory| c@),
        }
    }
}

/// One RSS channel, reduced to the fields the translation reads.
#[derive(Clone, Debug)]
pub struct RssChannel {
    pub title: String,
    pub description: String,
    pub items: Vec<RssItem>,
}

/// The mathematical value of an `RssChannel`.
#[verifier::ext_equal]
pub ghost struct RssChannelView {
    pub title: Seq<char>,
    pub description: Seq<char>,
    pub items: Seq<RssItemView>,
}

impl View for RssChannel {
    type V = RssChannelView;

    open spec fn view(&self) -> RssChannelView {
        RssChannelView {
            title: self.title@,
            description: self.description@,
            items: self.items@.map_values(|i: RssItem| i@),
        }
    }
}

/// The UNIX timestamp chrono's RFC 2822 parser reads from a string, where
/// it accepts one.
pub uninterp spec fn rfc2822_ts(s: Seq<char>) -> Option<i64>;

/// Relies on chrono's `DateTime::parse_from_rfc2822`: the outcome depends
/// on the string alone.
#[verifier::external_body]
fn parse_rfc2822(s: &str) -> (r: Option<i64>)
    ensures
        r == rfc2822_ts(s@),
{
    chrono::DateTime::parse_from_rfc2822(s).ok().map(|d| d.timestamp())
}

/// The UNIX timestamp chrono's RFC 3339 parser reads from a string, where
/// it accepts one.
pub uninterp spec fn rfc3339_ts(s: Seq<char>) -> Option<i64>;

/// Relies on chrono's `DateTime::parse_from_rfc3339`: the outcome depends
/// on the string alone.
#[verifier::external_body]
fn parse_rfc3339(s: &str) -> (r: Option<i64>)
    ensures
        r == rfc3339_ts(s@),
{
    chrono::DateTime::parse_from_rfc3339(s).ok().map(|d| d.timestamp())
}

/// The UNIX timestamp chrono's offset-aware parser reads from a string in
/// the fixed custom format, where it accepts one.
pub uninterp spec fn custom_tz_ts(s: Seq<char>) -> Option<i64>;

/// Relies on chrono's `DateTime::parse_from_str` with the fixed custom
/// format: the outcome depends on the string alone.
#[verifier::external_body]
fn parse_custom_tz(s: &str) -> (r: Option<i64>)
    ensures
        r == custom_tz_ts(s@),
{
    chrono::DateTime::parse_from_str(s, "%Y-%m-%dT%H:%M:%S").ok().map(|d| d.timestamp())
}

/// The UNIX timestamp chrono's naive parser reads from a string in the
/// fixed custom format taken as UTC, where it accepts one.
pub uninterp spec fn custom_naive_ts(s: Seq<char>) -> Option<i64>;

/// Relies on chrono's `NaiveDateTime::parse_from_str` with the fixed custom
/// format, the result taken as UTC: the outcome depends on the string
/// alone.
#[verifier::external_body]
fn parse_custom_naive(s: &str) -> (r: Option<i64>)
    ensures
        r == custom_naive_ts(s@),
{
    chrono::NaiveDateTime::parse_from_str(s, "%Y-%m-%dT%H:%M:%S").ok().map(
        |d| d.and_utc().timestamp(),
    )
}

/// The date-format cascade: RFC 2822, then RFC 3339, then the custom format
/// with an offset, then the custom format taken as UTC.
pub open spec fn spec_parse_date(s: Seq<char>) -> Option<i64> {
    if rfc2822_ts(s) is Some {
        rfc2822_ts(s)
    } else if rfc3339_ts(s) is Some {
        rfc3339_ts(s)
    } else if custom_tz_ts(s) is Some {
        custom_tz_ts(s)
    } else {
        custom_naive_ts(s)
    }
}

/// Try to coerce a date field into a UNIX timestamp through the format
/// cascade.
pub fn parse_date(v: &str) -> (r: Result<i64, Error>)
    ensures
        r == (match spec_parse_date(v@) {
            Some(t) => Ok::<i64, Error>(t),
            None => Err::<i64, Error>(Error::ParseError),
        }),
{
    match parse_rfc2822(v) {
        Some(t) => {
            return Ok(t);
        },
        None => {},
    }
    match parse_rfc3339(v) {
        Some(t) => {
            return Ok(t);
        },
        None => {},
    }
    match parse_custom_tz(v) {
        Some(t) => {
            return Ok(t);
        },
        None => {},
    }
    match parse_custom_naive(v) {
        Some(t) => {
            return Ok(t);
        },
        None => {},
    }
    Err(Error::ParseError)
}

/// The first Dublin-Core date that the cascade accepts.
pub open spec fn spec_first_dc(ds: Seq<Seq<char>>) -> Option<i64>
    decreases ds.len(),
{
    if ds.len() == 0 {
        None
    } else if spec_parse_date(ds.first()) is Some {
        spec_parse_date(ds.first())
    } else {
        spec_first_dc(ds.drop_first())
    }
}

/// An item's resolved date: its own date field through the cascade (an
/// absent field is tried as the empty string, so
/// an unparseable and an absent field fail alike), else the first
/// acceptable Dublin-Core date.
pub open spec fn spec_base_date(i: RssItemView) -> Option<i64> {
    let pd = match i.pub_date {
        Some(s) => s,
        None => Seq::<char>::empty(),
    };
    if spec_parse_date(pd) is Some {
        spec_parse_date(pd)
    } else {
        spec_first_dc(i.dc_dates)
    }
}

/// Try the item's date fields, in order, to resolve its date.
pub fn get_base_date(ipt: &RssItem) -> (r: Result<i64, Error>)
    ensures
        r == (match spec_base_date(ipt@) {
            Some(t) => Ok::<i64, Error>(t),
            None => Err::<i64, Error>(Error::IncompleteError),
        }),
{
    let ds: &str = match &ipt.pub_date {
        Some(v) => v.as_str(),
        None => "",
    };
    proof {
        reveal_strlit("");
        assert(""@ =~= Seq::<char>::empty());
    }
    match parse_date(ds) {
        Ok(v) => {
            return Ok(v);
        },
        Err(_) => {},
    }
    let mut i: usize = 0;
    proof {
        assert(ipt@.dc_dates.skip(0) =~= ipt@.dc_dates);
    }
    while i < ipt.dc_dates.len()
        invariant
            i <= ipt.dc_dates@.len(),
            spec_parse_date(match ipt@.pub_date {
                Some(s) => s,
                None => Seq::<char>::empty(),
            }) is None,
            spec_first_dc(ipt@.dc_dates) == spec_first_dc(ipt@.dc_dates.skip(i as int)),
        decreases ipt.dc_dates@.len() - i,
    {
        proof {
            assert(ipt@.dc_dates.skip(i as int).first() == ipt@.dc_dates[i as int]);
        }
        match parse_date(ipt.dc_dates[i].as_str()) {
            Ok(v) => {
                return Ok(v);
            },
            Err(_) => {},
        }
        i = i + 1;
        proof {
            assert(ipt@.dc_dates.skip(i - 1).drop_first() =~= ipt@.dc_dates.skip(i as int));
        }
    }
    proof {
        assert(ipt@.dc_dates.skip(i as int).len() == 0);
    }
    Err(Error::IncompleteError)
}

/// How one RSS category maps to a category of the common shape: the name
/// becomes both term and label, the domain becomes the scheme.
pub open spec fn spec_cat(c: RssCategoryView) -> CategoryView {
    CategoryView { term: c.name, scheme: c.domain, label: Some(c.name) }
}

/// The identifier an item's entry carries: the guid's value where the guid
/// is marked as a permalink, else the item's link, else empty.
pub open spec fn spec_item_id(i: RssItemView) -> Seq<char> {
    let link_id = match i.link {
        Some(l) => l,
        None => Seq::<char>::empty(),
    };
    match i.guid {
        Some(g) => if g.permalink {
            g.value
        } else {
            link_id
        },
        None => link_id,
    }
}

/// How one RSS item maps to an entry of the common shape, where its date
/// resolves; `None` where it does not.
pub open spec fn spec_translate_item(i: RssItemView) -> Option<EntryView> {
    match spec_base_date(i) {
        None => None,
        Some(t) => Some(
            EntryView {
                id: spec_item_id(i),
                title: match i.title {
                    Some(s) => s,
                    None => Seq::<char>::empty(),
                },
                published: Some(t),
                updated: Some(t),
                summary: i.description,
                content: match i.content {
                    Some(b) => Some(
                        ContentView { body: Some(b), ctype: Some("text/html"@), src: i.source_url },
                    ),
                    None => None,
                },
                categories: i.categories.map_values(|c: RssCategoryView| spec_cat(c)),
            },
        ),
    }
}

/// Coerce one RSS item into an entry of the common shape; fails with
/// `IncompleteError` when no date resolves.
pub fn translate_item(ipt: RssItem) -> (r: Result<Entry, Error>)
    ensures
        r matches Ok(e) ==> spec_translate_item(ipt@) == Some(e@),
        r is Err ==> spec_translate_item(ipt@) is None && r == Err::<Entry, Error>(
            Error::IncompleteError,
        ),
{
    let t: i64 = match get_base_date(&ipt) {
        Ok(v) => v,
        Err(_) => {
            return Err(Error::IncompleteError);
        },
    };
    let title: String = match &ipt.title {
        Some(v) => v.clone(),
        None => String::new(),
    };
    let mut id: String = match &ipt.link {
        Some(l) => l.clone(),
        None => String::new(),
    };
    match &ipt.guid {
        Some(g) => {
            if g.permalink {
                id = g.value.clone();
            }
        },
        None => {},
    }
    let summary: Option<String> = match &ipt.description {
        Some(d) => Some(d.clone()),
        None => None,
    };
    let content: Option<Content> = match &ipt.content {
        Some(b) => Some(
            Content {
                body: Some(b.clone()),
                ctype: Some("text/html".to_owned()),
                src: match &ipt.source_url {
                    Some(u) => Some(u.clone()),
                    None => None,
                },
            },
        ),
        None => None,
    };
    let mut cats: Vec<Category> = Vec::new();
    let mut i: usize = 0;
    while i < ipt.categories.len()
        invariant
            i <= ipt.categories@.len(),
            cats@.len() == i,
            forall|j: int| 0 <= j < i ==> #[trigger] cats@[j]@ == spec_cat(ipt@.categories[j]),
        decreases ipt.categories@.len() - i,
    {
        let c = &ipt.categories[i];
        let nc = Category {
            term: c.name.clone(),
            scheme: match &c.domain {
                Some(d) => Some(d.clone()),
                None => None,
            },
            label: Some(c.name.clone()),
        };
        proof {
            assert(nc@ == spec_cat(ipt@.categories[i as int]));
        }
        cats.push(nc);
        i = i + 1;
    }
    proof {
        assert(cats@.map_values(|c: Category| c@) =~= ipt@.categories.map_values(
            |c: RssCategoryView| spec_cat(c),
        ));
    }
    let e = Entry {
        id,
        title,
        published: Some(t),
        updated: Some(t),
        summary,
        content,
        categories: cats,
    };
    proof {
        assert(e@ =~= spec_translate_item(ipt@)->Some_0);
    }
    Ok(e)
}

/// The entries a sequence of items translates to, failing items skipped.
pub open spec fn spec_translate_entries(items: Seq<RssItemView>) -> Seq<EntryView>
    decreases items.len(),
{
    if items.len() == 0 {
        Seq::empty()
    } else {
        let rest = spec_translate_entries(items.drop_first());
        match spec_translate_item(items.first()) {
            Some(e) => seq![e] + rest,
            None => rest,
        }
    }
}

/// Whether every item of the sequence translates.
pub open spec fn spec_all_items_translate(items: Seq<RssItemView>) -> bool {
    forall|i: int| 0 <= i < items.len() ==> (#[trigger] spec_translate_item(items[i])) is Some
}

/// Coerce an RSS channel into a feed of the common shape.
///
/// Title and description carry over (the description as subtitle); items
/// are translated one by one.  A failing item fails the whole channel with
/// `IncompleteError` unless `allow_fail` is set, in which case it is
/// skipped.  The feed's `updated` stamp is the wall-clock time of the
/// translation; its identity fields stay empty.
pub fn translate(ipt: RssChannel, allow_fail: bool) -> (r: Result<Feed, Error>)
    ensures
        r is Ok <==> (allow_fail || spec_all_items_translate(ipt@.items)),
        r matches Ok(f) ==> {
            &&& f@.title == ipt@.title
            &&& f@.subtitle == Some(ipt@.description)
            &&& f@.entries == spec_translate_entries(ipt@.items)
            &&& f@.id == Seq::<char>::empty()
            &&& f@.authors == Seq::<PersonView>::empty()
        },
        r is Err ==> r == Err::<Feed, Error>(Error::IncompleteError),
{
    let ghost items0 = ipt@.items;
    let mut entries: Vec<Entry> = Vec::new();
    let mut items = ipt.items;
    proof {
        assert(items@.map_values(|x: RssItem| x@) =~= items0);
        assert(items@.map_values(|x: RssItem| x@) =~= items0.skip(0));
    }
    let ghost mut done: int = 0;
    while items.len() > 0
        invariant
            items0 == ipt@.items,
            0 <= done <= items0.len(),
            done == items0.len() - items@.len(),
            items@.map_values(|x: RssItem| x@) =~= items0.skip(done),
            spec_translate_entries(items0) =~= entries@.map_values(|e: Entry| e@)
                + spec_translate_entries(items0.skip(done)),
            !allow_fail ==> forall|j: int|
                0 <= j < done ==> (#[trigger] spec_translate_item(items0[j])) is Some,
        decreases items@.len(),
    {
        let ghost before = items@;
        let v = items.remove(0);
        proof {
            assert(items@ =~= before.drop_first());
            assert(items@.map_values(|x: RssItem| x@) =~= before.map_values(
                |x: RssItem| x@,
            ).drop_first());
            assert(before.map_values(|x: RssItem| x@).first() == v@);
            assert(items0.skip(done).drop_first() =~= items0.skip(done + 1));
            assert(items0.skip(done).first() == items0[done]);
        }
        match translate_item(v) {
            Ok(e) => {
                entries.push(e);
                proof {
                    assert(entries@.map_values(|e: Entry| e@) =~= entries@.map_values(
                        |e: Entry| e@,
                    ).drop_last() + seq![e@]);
                    assert(seq![e@] + spec_translate_entries(items0.skip(done + 1))
                        =~= spec_translate_entries(items0.skip(done)));
                }
            },
            Err(_) => {
                if !allow_fail {
                    proof {
                        assert(spec_translate_item(items0[done]) is None);
                        assert(0 <= done < items0.len());
                        assert(!spec_all_items_translate(items0));
                    }
                    return Err(Error::IncompleteError);
                }
            },
        }
        proof {
            done = done + 1;
        }
    }
    proof {
        assert(items0.skip(items0.len() as int).len() == 0);
        assert(entries@.map_values(|e: Entry| e@) =~= spec_translate_entries(items0));
        if !allow_fail {
            assert(done == items0.len());
        }
    }
    let f = Feed {
        id: String::new(),
        title: ipt.title,
        subtitle: Some(ipt.description),
        updated: now_ts(),
        authors: Vec::new(),
        entries,
    };
    proof {
        assert(f@.authors =~= Seq::<PersonView>::empty());
    }
    Ok(f)
}

/// Every entry the translator produces is safe to serialize and re-parse:
/// translated content is typed `text/html`, never raw `xhtml`.
pub proof fn lemma_translated_entries_xml_safe(items: Seq<RssItemView>)
    ensures
        forall|j: int|
            0 <= j < spec_translate_entries(items).len() ==> xml_safe(
                #[trigger] spec_translate_entries(items)[j],
            ),
    decreases items.len(),
{
    reveal_strlit("text/html");
    reveal_strlit("xhtml");
    if items.len() > 0 {
        lemma_translated_entries_xml_safe(items.drop_first());
        let rest = spec_translate_entries(items.drop_first());
        match spec_translate_item(items.first()) {
            Some(e) => {
                assert("text/html"@.len() != "xhtml"@.len());
                assert(xml_safe(e));
                assert forall|j: int|
                    0 <= j < spec_translate_entries(items).len() implies xml_safe(
                    #[trigger] spec_translate_entries(items)[j],
                ) by {
                    if j > 0 {
                        assert(spec_translate_entries(items)[j] == rest[j - 1]);
                    }
                }
            },
            None => {
                assert(spec_translate_entries(items) == rest);
            },
        }
    }
}

/// The top-level resolution of a source document: a document already in the
/// target format passes through unchanged; else an RSS channel is
/// translated; else the source is unreadable.
pub fn from_parsed(atom: Option<Feed>, channel: Option<RssChannel>, allow_entry_fail: bool) -> (r:
    Result<Feed, Error>)
    ensures
        atom matches Some(f) ==> r == Ok::<Feed, Error>(f),
        atom is None ==> (channel matches Some(ch) ==> {
            &&& (r is Ok <==> (allow_entry_fail || spec_all_items_translate(ch@.items)))
            &&& (r matches Ok(f) ==> f@.title == ch@.title && f@.subtitle == Some(ch@.description)
                && f@.entries == spec_translate_entries(ch@.items) && f@.id == Seq::<
                char,
            >::empty() && f@.authors == Seq::<PersonView>::empty())
            &&& (r is Err ==> r == Err::<Feed, Error>(Error::IncompleteError))
        }),
        atom is None && channel is None ==> r == Err::<Feed, Error>(Error::ParseError),
{
    match atom {
        Some(f) => Ok(f),
        None => match channel {
            Some(ch) => translate(ch, allow_entry_fail),
            None => Err(Error::ParseError),
        },
    }
}

} // verus!
