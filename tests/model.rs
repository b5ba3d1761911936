use telefeed::cache::CacheKey;
use telefeed::config::{ChatId, Config, FeedConfig, FeedKind, DEFAULT_REQUEST_TIMEOUT};
use telefeed::feed::{Entry, EntryError, FeedError};
use telefeed::markup::escape_html;
use telefeed::timestamp::Timestamp;

const NEW_YEAR: i64 = 1_704_067_200;

fn at(secs: i64) -> Timestamp {
    Timestamp::new(secs, 0, 0).unwrap()
}

fn entry(url: &str) -> Entry {
    Entry::new(String::from(url), String::from("t"), at(NEW_YEAR))
}

#[test]
fn cache_key_is_prefixed_base64_of_chat_and_url() {
    let key = CacheKey::new(&ChatId::Id(-100), &entry("https://x/1"));
    assert_eq!(key.as_str(), "telefeed:LTEwMA:aHR0cHM6Ly94LzE");
    let key = CacheKey::new(&ChatId::Username(String::from("@news")), &entry("https://x/1"));
    assert_eq!(key.as_str(), "telefeed:QG5ld3M:aHR0cHM6Ly94LzE");
}

#[test]
fn cache_key_is_deterministic_and_tells_pairs_apart() {
    let a = CacheKey::new(&ChatId::Id(1), &entry("https://x/1"));
    let b = CacheKey::new(&ChatId::Id(1), &entry("https://x/1"));
    let c = CacheKey::new(&ChatId::Id(2), &entry("https://x/1"));
    let d = CacheKey::new(&ChatId::Id(1), &entry("https://x/2"));
    assert_eq!(a.as_str(), b.as_str());
    assert_ne!(a.as_str(), c.as_str());
    assert_ne!(a.as_str(), d.as_str());
    assert_ne!(c.as_str(), d.as_str());
    let e = CacheKey::new(&ChatId::Id(1), &entry("2x"));
    let f = CacheKey::new(&ChatId::Id(12), &entry("x"));
    assert_ne!(e.as_str(), f.as_str());
    let g = CacheKey::new(&ChatId::Username(String::from("@ab")), &entry("c"));
    let h = CacheKey::new(&ChatId::Username(String::from("@a")), &entry("bc"));
    assert_ne!(g.as_str(), h.as_str());
}

#[test]
fn escape_replaces_markup_characters() {
    assert_eq!(escape_html("<b>&</b>"), "&lt;b&gt;&amp;&lt;/b&gt;");
    assert_eq!(escape_html("plain \"text\""), "plain \"text\"");
    assert_eq!(escape_html(""), "");
}

#[test]
fn chat_text_is_the_number_or_the_username() {
    assert_eq!(ChatId::Id(-1001234).text(), "-1001234");
    assert_eq!(ChatId::Id(0).text(), "0");
    assert_eq!(ChatId::Username(String::from("@chan")).text(), "@chan");
}

#[test]
fn config_key_names_an_id_or_a_username() {
    assert!(matches!(ChatId::from_key("-1001234"), ChatId::Id(-1001234)));
    match ChatId::from_key("@chan") {
        ChatId::Username(name) => assert_eq!(name, "@chan"),
        other => panic!("expected a username, got {:?}", other),
    }
}

#[test]
fn feed_settings_fall_back_to_defaults() {
    let c = FeedConfig::resolve(ChatId::Id(1), String::from("u"), FeedKind::Atom, None, None, None, None);
    assert!(!c.include_feed_title);
    assert_eq!(c.request_timeout, DEFAULT_REQUEST_TIMEOUT);
    let c = FeedConfig::resolve(ChatId::Id(1), String::from("u"), FeedKind::Atom, None, None, Some(true), Some(30));
    assert!(c.include_feed_title);
    assert_eq!(c.request_timeout, 30);
    let c = FeedConfig::resolve(ChatId::Id(1), String::from("u"), FeedKind::Atom, Some(false), Some(5), Some(true), Some(30));
    assert!(!c.include_feed_title);
    assert_eq!(c.request_timeout, 5);
}

#[test]
fn config_accessors_return_fields() {
    let feed = FeedConfig::resolve(ChatId::Id(1), String::from("u"), FeedKind::Rss, None, None, None, None);
    let config = Config::new(String::from("token"), String::from("redis://localhost"), vec![feed]);
    assert_eq!(config.get_token(), "token");
    assert_eq!(config.redis_url(), "redis://localhost");
    assert_eq!(config.into_feeds().len(), 1);
}

#[test]
fn rss_fields_need_title_and_link() {
    let now = at(NEW_YEAR);
    assert_eq!(Entry::from_rss_fields(None, Some("u"), None, &now).unwrap_err(), EntryError::NoTitle);
    assert_eq!(Entry::from_rss_fields(Some("t"), None, None, &now).unwrap_err(), EntryError::NoUrl);
    let e = Entry::from_rss_fields(Some("t"), Some("u"), Some("not a date"), &now).unwrap();
    assert_eq!(e.published, now);
    let e = Entry::from_rss_fields(Some("t"), Some("u"), Some("Tue, 02 Jan 2024 10:00:00 +0200"), &now).unwrap();
    assert_eq!(e.published, Timestamp { secs: NEW_YEAR + 86_400 + 8 * 3_600, nanos: 0, offset: 7_200 });
    assert_eq!(e.url(), "u");
    assert_eq!(e.title(), "t");
}

#[test]
fn atom_fields_prefer_link_title_and_need_a_link() {
    let date = (NEW_YEAR, 0, 0);
    assert_eq!(Entry::from_atom_fields(None, None, "t", date).unwrap_err(), EntryError::NoUrl);
    let e = Entry::from_atom_fields(Some("u"), Some("link title"), "entry title", date).unwrap();
    assert_eq!(e.title, "link title");
    let e = Entry::from_atom_fields(Some("u"), None, "entry title", date).unwrap();
    assert_eq!(e.title, "entry title");
    assert_eq!(Entry::from_atom_fields(Some("u"), None, "t", (300_000_000_000, 0, 0)).unwrap_err(), EntryError::NoDate);
}

#[test]
fn feed_error_wraps_entry_error() {
    assert_eq!(FeedError::from(EntryError::NoUrl), FeedError::Entry(EntryError::NoUrl));
}

#[test]
fn timestamp_range_is_years_zero_to_9999() {
    assert!(Timestamp::new(253_402_300_799, 0, 0).is_some());
    assert!(Timestamp::new(253_402_300_800, 0, 0).is_none());
    assert!(Timestamp::new(253_402_300_799, 0, 3_600).is_none());
    assert!(Timestamp::new(-62_167_219_200, 0, 0).is_some());
    assert!(Timestamp::new(-62_167_219_201, 0, 0).is_none());
    assert!(Timestamp::new(0, 0, 86_400).is_none());
}

#[test]
fn days_since_rounds_toward_zero() {
    let t = at(NEW_YEAR);
    assert_eq!(at(NEW_YEAR + 86_399).days_since(&t), 0);
    assert_eq!(at(NEW_YEAR + 86_400).days_since(&t), 1);
    assert_eq!(at(NEW_YEAR + 2 * 86_400 - 1).days_since(&t), 1);
    assert_eq!(at(NEW_YEAR - 86_399).days_since(&t), 0);
    assert_eq!(at(NEW_YEAR - 86_400).days_since(&t), -1);
    let later = Timestamp::new(NEW_YEAR + 86_400, 0, 0).unwrap();
    let earlier = Timestamp::new(NEW_YEAR, 1, 0).unwrap();
    assert_eq!(later.days_since(&earlier), 0);
}

#[test]
fn rfc2822_round_trip_of_a_date() {
    let t = Timestamp::parse_rfc2822("Mon, 01 Jan 2024 00:00:00 +0000").unwrap();
    assert_eq!(t, at(NEW_YEAR));
    assert_eq!(t.to_rfc2822(), "Mon, 01 Jan 2024 00:00:00 +0000");
    let t = Timestamp::new(NEW_YEAR, 0, -18_000).unwrap();
    assert_eq!(t.to_rfc2822(), "Sun, 31 Dec 2023 19:00:00 -0500");
    assert!(Timestamp::parse_rfc2822("yesterday").is_none());
}

#[test]
fn now_is_utc_and_in_range() {
    let now = Timestamp::now().unwrap();
    assert_eq!(now.offset, 0);
    assert!(now.secs > NEW_YEAR);
}

#[test]
fn errors_read_as_words() {
    assert_eq!(EntryError::NoTitle.message(), "title is missing");
    assert_eq!(EntryError::NoUrl.message(), "url is missing");
    assert_eq!(EntryError::NoDate.message(), "date is missing or out of range");
    assert_eq!(FeedError::Entry(EntryError::NoUrl).message(), "can not read entry: url is missing");
}

#[test]
fn validity_checks_the_date_range() {
    assert!(at(NEW_YEAR).is_valid());
    let far = Timestamp { secs: 300_000_000_000, nanos: 0, offset: 0 };
    assert!(!far.is_valid());
    let good = telefeed::feed::Feed::new(String::from("f"), vec![entry("u")]);
    assert!(good.is_valid());
    let bad = telefeed::feed::Feed::new(
        String::from("f"),
        vec![entry("u"), Entry::new(String::from("v"), String::from("t"), far)],
    );
    assert!(!bad.is_valid());
}
