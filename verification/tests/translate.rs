use crier::Error;
use crier::rss::RssCategory;
use crier::rss::RssChannel;
use crier::rss::RssGuid;
use crier::rss::RssItem;
use crier::rss::from_parsed;
use crier::rss::get_base_date;
use crier::rss::parse_date;
use crier::rss::translate;
use crier::rss::translate_item;

fn bare_item() -> RssItem {
    RssItem {
        title: None,
        link: None,
        description: None,
        guid: None,
        pub_date: None,
        source_url: None,
        content: None,
        dc_dates: Vec::new(),
        categories: Vec::new(),
    }
}

#[test]
fn test_parse_date_rfc2822() {
    assert_eq!(parse_date("Tue, 25 Jun 2024 20:46:00 +0200").unwrap(), 1719341160);
}

#[test]
fn test_parse_date_rfc3339() {
    assert_eq!(parse_date("2024-06-25T20:46:00+02:00").unwrap(), 1719341160);
}

#[test]
fn test_parse_date_custom_naive_is_utc() {
    assert_eq!(parse_date("2024-06-25T20:46:00").unwrap(), 1719348360);
}

#[test]
fn test_parse_date_rejects_garbage() {
    assert!(matches!(parse_date("not a date"), Err(Error::ParseError)));
    assert!(matches!(parse_date(""), Err(Error::ParseError)));
}

#[test]
fn test_base_date_prefers_own_field() {
    let mut item = bare_item();
    item.pub_date = Some(String::from("2024-06-25T20:46:00"));
    item.dc_dates.push(String::from("2020-01-01T00:00:00"));
    assert_eq!(get_base_date(&item).unwrap(), 1719348360);
}

#[test]
fn test_base_date_falls_back_to_dublin_core() {
    let mut item = bare_item();
    item.pub_date = Some(String::from("someday"));
    item.dc_dates.push(String::from("not a date either"));
    item.dc_dates.push(String::from("2024-06-25T20:46:00"));
    assert_eq!(get_base_date(&item).unwrap(), 1719348360);
}

#[test]
fn test_item_without_date_incomplete() {
    let mut item = bare_item();
    item.title = Some(String::from("no date at all"));
    assert!(matches!(get_base_date(&item), Err(Error::IncompleteError)));
    assert!(matches!(translate_item(item), Err(Error::IncompleteError)));
}

#[test]
fn test_translate_item_fields() {
    let mut item = bare_item();
    item.title = Some(String::from("inky"));
    item.link = Some(String::from("https://example.org/1"));
    item.description = Some(String::from("about inky"));
    item.pub_date = Some(String::from("2024-06-25T20:46:00"));
    item.content = Some(String::from("<p>body</p>"));
    item.source_url = Some(String::from("https://example.org/src"));
    item.categories.push(RssCategory {
        name: String::from("news"),
        domain: Some(String::from("https://example.org/cats")),
    });

    let e = translate_item(item).unwrap();
    assert_eq!(e.id, "https://example.org/1");
    assert_eq!(e.title, "inky");
    assert_eq!(e.published, Some(1719348360));
    assert_eq!(e.updated, Some(1719348360));
    assert_eq!(e.summary.as_deref(), Some("about inky"));
    let c = e.content.unwrap();
    assert_eq!(c.body.as_deref(), Some("<p>body</p>"));
    assert_eq!(c.ctype.as_deref(), Some("text/html"));
    assert_eq!(c.src.as_deref(), Some("https://example.org/src"));
    assert_eq!(e.categories.len(), 1);
    assert_eq!(e.categories[0].term, "news");
    assert_eq!(e.categories[0].label.as_deref(), Some("news"));
    assert_eq!(e.categories[0].scheme.as_deref(), Some("https://example.org/cats"));
}

#[test]
fn test_translate_item_permalink_guid_wins() {
    let mut item = bare_item();
    item.pub_date = Some(String::from("2024-06-25T20:46:00"));
    item.link = Some(String::from("https://example.org/link"));
    item.guid = Some(RssGuid { value: String::from("urn:guid:1"), permalink: true });
    let e = translate_item(item).unwrap();
    assert_eq!(e.id, "urn:guid:1");

    let mut item = bare_item();
    item.pub_date = Some(String::from("2024-06-25T20:46:00"));
    item.link = Some(String::from("https://example.org/link"));
    item.guid = Some(RssGuid { value: String::from("urn:guid:1"), permalink: false });
    let e = translate_item(item).unwrap();
    assert_eq!(e.id, "https://example.org/link");
}

#[test]
fn test_partial_translation_failure() {
    let mut good = bare_item();
    good.title = Some(String::from("good"));
    good.pub_date = Some(String::from("2024-06-25T20:46:00"));
    let mut bad = bare_item();
    bad.title = Some(String::from("bad"));

    let ch = RssChannel {
        title: String::from("chan"),
        description: String::from("about"),
        items: vec![good.clone(), bad.clone()],
    };

    let tolerant = translate(ch.clone(), true).unwrap();
    assert_eq!(tolerant.entries.len(), 1);
    assert_eq!(tolerant.entries[0].title, "good");
    assert_eq!(tolerant.title, "chan");
    assert_eq!(tolerant.subtitle.as_deref(), Some("about"));

    assert!(matches!(translate(ch, false), Err(Error::IncompleteError)));
}

#[test]
fn test_from_parsed_cascade() {
    let mut feed = crier::entry::Feed::default();
    feed.title = String::from("already atom");
    let r = from_parsed(Some(feed), None, false).unwrap();
    assert_eq!(r.title, "already atom");

    let ch = RssChannel {
        title: String::from("chan"),
        description: String::from("about"),
        items: Vec::new(),
    };
    let r = from_parsed(None, Some(ch), false).unwrap();
    assert_eq!(r.title, "chan");

    assert!(matches!(from_parsed(None, None, false), Err(Error::ParseError)));
}
