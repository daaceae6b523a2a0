use crier::entry::Feed;
use crier::entry::Person;
use crier::meta::FeedMetadata;

#[test]
fn test_meta() {
    let mut o = FeedMetadata::default();
    let mut feed = Feed::default();

    match o.apply(&mut feed) {
        Ok(_) => {
            panic!("metadata should not be ready");
        },
        Err(_) => {},
    };

    o.set_title(String::from("foo"));
    match o.apply(&mut feed) {
        Ok(_) => {
            panic!("metadata should not be ready");
        },
        Err(_) => {},
    };

    o.set_author(Person {
        name: String::from("Foo Bar"),
        email: Some("foo@bar.com".to_string()),
        uri: Some("foo.bar.com".to_string()),
    });
    o.apply(&mut feed).unwrap();
    assert_eq!(feed.title, "foo");
    assert_eq!(feed.authors.len(), 1);
    assert_eq!(feed.authors[0].name, "Foo Bar");
    assert_eq!(feed.authors[0].email.as_deref(), Some("foo@bar.com"));
}

#[test]
fn test_meta_author_alone_not_ready() {
    let mut o = FeedMetadata::default();
    let mut feed = Feed::default();
    let ready = o.set_author(Person { name: String::from("Foo Bar"), email: None, uri: None });
    assert!(!ready);
    assert!(matches!(o.apply(&mut feed), Err(crier::meta::Error::IncompleteFeedMetadata)));
}

#[test]
fn test_meta_ready_once_both_set() {
    let mut o = FeedMetadata::default();
    assert!(!o.set_author(Person { name: String::from("Foo Bar"), email: None, uri: None }));
    assert!(o.set_title(String::from("foo")));
    let mut feed = Feed::default();
    assert!(o.apply(&mut feed).is_ok());
}

#[test]
fn test_meta_force() {
    let mut o = FeedMetadata::default();
    o.force();
    let mut feed = Feed::default();
    o.apply(&mut feed).unwrap();
    assert_eq!(feed.title, "?");
    assert_eq!(feed.authors[0].name, "?");
}

#[test]
fn test_meta_default_id_is_uuid_text() {
    let o = FeedMetadata::default();
    assert_eq!(o.id.len(), 36);
    let p = FeedMetadata::default();
    assert_ne!(o.id, p.id);
}

#[test]
fn test_meta_apply_leaves_other_fields() {
    let mut o = FeedMetadata::default();
    o.force();
    let mut feed = Feed::default();
    feed.id = String::from("urn:x:keep");
    feed.updated = 77;
    o.apply(&mut feed).unwrap();
    assert_eq!(feed.id, "urn:x:keep");
    assert_eq!(feed.updated, 77);
}
