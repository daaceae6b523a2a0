use std::hash::Hasher;
use std::str::FromStr;

use crier::Sequencer;
use crier::SequencerEntry;
use crier::entry::Entry;
use crier::mem::MemCache;

fn ts(s: &str) -> i64 {
    chrono::DateTime::parse_from_rfc3339(s).unwrap().timestamp()
}

fn entry(id: &str, title: &str, date: Option<&str>) -> Entry {
    let mut e = Entry::default();
    e.id = String::from(id);
    e.title = String::from(title);
    e.published = date.map(ts);
    e
}

fn blob_entry(blob: &[u8]) -> atom_syndication::Entry {
    atom_syndication::Entry::from_str(std::str::from_utf8(blob).unwrap()).unwrap()
}

#[test]
fn test_entry_guard() {
    let mut r: bool;
    let mut seq = Sequencer::new();

    let src = entry("foo", "inky", Some("2024-06-25T20:46:00+02:00"));
    r = seq.add(src);
    assert!(r);

    let src_two = entry("foo", "pinky", Some("2024-06-25T20:46:00+02:00"));
    r = seq.add(src_two);
    assert!(!r);

    let src_three = entry("foo", "blinky", Some("2024-06-25T20:46:00+03:00"));
    r = seq.add(src_three);
    assert!(r);
}

#[test]
fn tests_test_entry_guard() {
    let mut r: bool;
    let mut seq = Sequencer::new();

    let mut src = Entry::default();
    src.id = String::from("foo");
    src.published = Some(ts("2024-06-25T20:46:00+02:00"));
    r = seq.add(src);
    assert!(r);

    let mut src_two = Entry::default();
    src_two.id = String::from("foo");
    src_two.published = Some(ts("2024-06-25T20:46:00+02:00"));
    r = seq.add(src_two);
    assert!(!r);

    let mut src_three = Entry::default();
    src_three.id = String::from("foo");
    src_three.published = Some(ts("2024-06-25T20:46:00+03:00"));
    r = seq.add(src_three);
    assert!(r);
}

#[test]
fn test_sequence_order() {
    let mut seq = Sequencer::new();

    seq.add(entry("y", "inky", Some("2024-06-25T20:46:00+02:00")));
    seq.add(entry("b", "pinky", Some("2023-06-25T20:46:00+02:00")));
    seq.add(entry("d", "blinky", Some("2024-06-25T20:46:00+02:00")));
    seq.add(entry("a", "clyde", Some("2024-06-25T20:46:00+02:00")));

    let r = seq.next().unwrap();
    assert_eq!(blob_entry(&r).title.value, "pinky");
    let r = seq.next().unwrap();
    assert_eq!(blob_entry(&r).title.value, "blinky");
    let r = seq.next().unwrap();
    assert_eq!(blob_entry(&r).title.value, "inky");
    let r = seq.next().unwrap();
    assert_eq!(blob_entry(&r).title.value, "clyde");
    assert!(seq.next().is_none());
}

#[test]
fn tests_test_sequence_order() {
    let mut seq = Sequencer::new();

    seq.add(entry("g", "inky", Some("2024-06-25T20:46:00+02:00")));
    seq.add(entry("b", "pinky", Some("2023-06-25T20:46:00+02:00")));
    seq.add(entry("a", "blinky", Some("2024-06-25T20:46:00+02:00")));

    let r = seq.next().unwrap();
    assert_eq!(blob_entry(&r).id, "b");
    let r = seq.next().unwrap();
    assert_eq!(blob_entry(&r).id, "g");
    let r = seq.next().unwrap();
    assert_eq!(blob_entry(&r).id, "a");
}

#[test]
fn test_duplicate_written_once() {
    let mut seq = Sequencer::new();
    seq.set_author("Foo Bar");
    seq.set_title("foo");

    let e = entry("foo", "inky", Some("2024-06-25T20:46:00+02:00"));
    assert!(seq.add(e.clone()));
    assert!(!seq.add(e));

    let (out, n) = seq.write_to().unwrap();
    assert_eq!(n, 1);
    let feed = atom_syndication::Feed::read_from(out.as_slice()).unwrap();
    assert_eq!(feed.entries.len(), 1);
}

#[test]
fn test_distinct_timestamps_both_kept() {
    let mut seq = Sequencer::new();
    let a = entry("foo", "inky", Some("2024-06-25T20:46:00+02:00"));
    let b = entry("foo", "pinky", Some("2024-06-25T20:46:01+02:00"));
    assert!(seq.add(a));
    assert!(seq.add(b));
    assert_eq!(seq.items.len(), 2);
}

#[test]
fn test_digest_layout() {
    let t = ts("2024-06-25T20:46:00+02:00");
    assert_eq!(t, 1719341160);

    let e = entry("foo", "inky", Some("2024-06-25T20:46:00+02:00"));
    let o = SequencerEntry::new(e);

    let mut h = rs_sha512::Sha512Hasher::default();
    h.write("foo".as_bytes());
    let lo = (h.finish() as u32) as u64;
    let expected = ((1719341160u64) << 32) | lo;

    assert_eq!(o.digest, expected);
    assert_eq!(o.digest >> 32, 1719341160u64);
}

#[test]
fn test_undated_entry_low_bucket() {
    let e = entry("foo", "inky", None);
    let o = SequencerEntry::new(e);
    assert_eq!(o.digest >> 32, 0);

    let mut e2 = entry("foo", "inky", None);
    e2.updated = Some(ts("2024-06-25T20:46:00+02:00"));
    let o2 = SequencerEntry::new(e2);
    assert_eq!(o2.digest >> 32, 1719341160u64);
}

#[test]
fn test_round_trip_entry() {
    let mut seq = Sequencer::new();
    seq.add(entry("urn:x:roundtrip", "inky", Some("2024-06-25T20:46:00+02:00")));
    let blob = seq.next().unwrap();
    let back = blob_entry(&blob);
    assert_eq!(back.id, "urn:x:roundtrip");
    assert_eq!(back.title.value, "inky");
}

#[test]
fn test_feed_merge_counts() {
    let mut seq = Sequencer::new();
    seq.set_title("merged");
    seq.set_author("Foo Bar");

    let mut atom_feed = crier::entry::Feed::default();
    for i in 0..16 {
        let d = format!("2024-06-25T20:46:{:02}+02:00", i);
        atom_feed.entries.push(entry(
            &format!("urn:a:{}", i),
            &format!("atom item {}", i),
            Some(d.as_str()),
        ));
    }
    assert_eq!(seq.add_from(atom_feed), 16);

    let mut ch = crier::rss::RssChannel {
        title: String::from("rss source"),
        description: String::from("rss about"),
        items: Vec::new(),
    };
    for i in 0..10 {
        ch.items.push(crier::rss::RssItem {
            title: Some(format!("rss item {}", i)),
            link: Some(format!("urn:r:{}", i)),
            description: None,
            guid: None,
            pub_date: Some(format!("2023-06-25T20:46:{:02}", i)),
            source_url: None,
            content: None,
            dc_dates: Vec::new(),
            categories: Vec::new(),
        });
    }
    let rss_feed = crier::rss::translate(ch, false).unwrap();
    assert_eq!(seq.add_from(rss_feed), 10);

    let (out, n) = seq.write_to().unwrap();
    assert_eq!(n, 26);
    let feed = atom_syndication::Feed::read_from(out.as_slice()).unwrap();
    assert_eq!(feed.entries.len(), 26);
    assert_eq!(feed.title.value, "merged");
    assert_eq!(feed.authors.len(), 1);
    assert_eq!(feed.authors[0].name, "Foo Bar");
}

#[test]
fn test_add_from_counts_presented_not_accepted() {
    let mut seq = Sequencer::new();
    let mut feed = crier::entry::Feed::default();
    let e = entry("foo", "inky", Some("2024-06-25T20:46:00+02:00"));
    feed.entries.push(e.clone());
    feed.entries.push(e);
    assert_eq!(seq.add_from(feed), 2);
    assert_eq!(seq.items.len(), 1);
}

#[test]
fn test_write_incomplete_metadata() {
    let mut seq = Sequencer::new();
    seq.add(entry("foo", "inky", Some("2024-06-25T20:46:00+02:00")));
    assert!(matches!(seq.write_to(), Err(crier::Error::WriteError)));
}

#[test]
fn test_raw_xhtml_content_defeats_reparse() {
    let mut seq = Sequencer::new();
    seq.set_title("t");
    seq.set_author("a");
    let mut e = entry("foo", "inky", Some("2024-06-25T20:46:00+02:00"));
    e.content = Some(crier::entry::Content {
        body: Some(String::from("<div>")),
        ctype: Some(String::from("xhtml")),
        src: None,
    });
    assert!(seq.add(e));
    assert!(matches!(seq.write_to(), Err(crier::Error::CacheError)));
}

#[test]
fn test_html_content_round_trips() {
    let mut seq = Sequencer::new();
    seq.set_title("t");
    seq.set_author("a");
    let mut e = entry("foo", "inky", Some("2024-06-25T20:46:00+02:00"));
    e.content = Some(crier::entry::Content {
        body: Some(String::from("<p>body</p>")),
        ctype: Some(String::from("text/html")),
        src: None,
    });
    assert!(seq.add(e));
    let (out, n) = seq.write_to().unwrap();
    assert_eq!(n, 1);
    let feed = atom_syndication::Feed::read_from(out.as_slice()).unwrap();
    assert_eq!(feed.entries[0].content.as_ref().unwrap().value.as_deref(), Some("<p>body</p>"));
}

#[test]
fn test_write_unparseable_staged_blob() {
    let mut seq = Sequencer::new();
    seq.set_title("foo");
    seq.set_author("bar");
    seq.items.insert(42, vec![0xff, 0xfe, 0x00]);
    assert!(matches!(seq.write_to(), Err(crier::Error::CacheError)));
}

#[test]
fn test_empty_sequencer_writes_empty_feed() {
    let mut seq = Sequencer::new();
    seq.set_title("empty");
    seq.set_author("nobody");
    let (out, n) = seq.write_to().unwrap();
    assert_eq!(n, 0);
    let feed = atom_syndication::Feed::read_from(out.as_slice()).unwrap();
    assert_eq!(feed.entries.len(), 0);
}

#[test]
fn test_with_cache_keeps_entries() {
    let seq = Sequencer::new();
    let mut seq = seq.with_cache(MemCache::new());
    assert!(seq.add(entry("foo", "inky", Some("2024-06-25T20:46:00+02:00"))));
    assert!(!seq.add(entry("foo", "pinky", Some("2024-06-25T20:46:00+02:00"))));
    assert_eq!(seq.items.len(), 1);
}
