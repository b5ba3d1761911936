use telefeed::config::{ChatId, FeedConfig, FeedKind};
use telefeed::feed::Feed;
use telefeed::reader::{Reader, RequestError};
use telefeed::timestamp::Timestamp;

const NEW_YEAR: i64 = 1_704_067_200;

fn reader(kind: FeedKind) -> Reader {
    Reader::new(FeedConfig {
        chat_id: ChatId::Id(7),
        url: String::from("https://x/feed"),
        kind,
        include_feed_title: false,
        request_timeout: 300,
    })
}

fn now() -> Timestamp {
    Timestamp::new(NEW_YEAR, 0, 0).unwrap()
}

const RSS: &str = r#"<?xml version="1.0"?>
<rss version="2.0"><channel><title>Site</title><link>https://x</link><description>d</description>
<item><title>Launch</title><link>https://x/1</link><pubDate>Mon, 01 Jan 2024 00:00:00 +0000</pubDate></item>
<item><title>No link</title></item>
<item><title>Undated</title><link>https://x/3</link></item>
</channel></rss>"#;

const ATOM: &str = r#"<?xml version="1.0" encoding="utf-8"?>
<feed xmlns="http://www.w3.org/2005/Atom"><title>Atom site</title><id>urn:x</id><updated>2024-01-01T00:00:00Z</updated>
<entry><title>First</title><id>urn:1</id><updated>2024-01-01T00:00:00Z</updated><link href="https://x/a"/></entry>
<entry><title>Linkless</title><id>urn:2</id><updated>2024-01-01T00:00:00Z</updated></entry>
<entry><title>Second</title><id>urn:3</id><updated>2024-01-01T00:00:00Z</updated><published>2023-12-31T12:00:00+01:00</published><link href="https://x/b" title="Link name"/></entry>
</feed>"#;

#[test]
fn server_error_is_a_bad_status() {
    let r = reader(FeedKind::Rss).read_response(500, RSS.as_bytes(), &now());
    assert!(matches!(r, Err(RequestError::BadStatus(500))));
    let r = reader(FeedKind::Atom).read_response(404, ATOM.as_bytes(), &now());
    assert!(matches!(r, Err(RequestError::BadStatus(404))));
}

#[test]
fn malformed_xml_is_a_parse_error() {
    let r = reader(FeedKind::Rss).read_response(200, b"<rss><channel>", &now());
    assert!(matches!(r, Err(RequestError::Rss(_))));
    let r = reader(FeedKind::Atom).read_response(200, b"not xml at all", &now());
    assert!(matches!(r, Err(RequestError::Atom(_))));
}

#[test]
fn rss_items_without_link_are_left_out() {
    let feed = reader(FeedKind::Rss).read_response(200, RSS.as_bytes(), &now()).unwrap();
    assert_eq!(feed.title(), "Site");
    let urls: Vec<&str> = feed.entries().iter().map(|e| e.url()).collect();
    assert_eq!(urls, vec!["https://x/1", "https://x/3"]);
    assert_eq!(feed.entries()[0].published, now());
    assert_eq!(feed.entries()[1].published, now());
}

#[test]
fn atom_entries_without_link_are_left_out() {
    let feed = reader(FeedKind::Atom).read_response(200, ATOM.as_bytes(), &now()).unwrap();
    assert_eq!(feed.title(), "Atom site");
    let entries = feed.entries();
    assert_eq!(entries.len(), 2);
    assert_eq!(entries[0].title, "First");
    assert_eq!(entries[0].published, now());
    assert_eq!(entries[1].url, "https://x/b");
    assert_eq!(entries[1].title, "Link name");
    assert_eq!(entries[1].published, Timestamp { secs: NEW_YEAR - 13 * 3_600, nanos: 0, offset: 3_600 });
}

#[test]
fn failed_poll_still_sleeps_and_continues() {
    let r = reader(FeedKind::Rss);
    let failed = r.read_response(500, b"", &now());
    let cycle = r.next_cycle(failed);
    assert!(cycle.payload.is_none());
    assert_eq!(cycle.sleep_secs, 300);
    let ok = r.read_response(200, RSS.as_bytes(), &now());
    let cycle = r.next_cycle(ok);
    assert_eq!(cycle.sleep_secs, 300);
    let payload = cycle.payload.unwrap();
    assert!(matches!(payload.chat_id, ChatId::Id(7)));
    assert_eq!(payload.feed.entries().len(), 2);
}

#[test]
fn empty_feed_gives_no_payload() {
    let r = reader(FeedKind::Rss);
    let cycle = r.next_cycle(Ok(Feed::new(String::from("Empty"), Vec::new())));
    assert!(cycle.payload.is_none());
    assert_eq!(cycle.sleep_secs, 300);
}
