//! Parsed RSS and Atom documents, as the rss and atom_syndication crates read
//! them, held as plain values and turned into the feed model.

use crate::feed::{opt_view, rss_published, Entry, Feed};
use crate::timestamp::{in_rfc2822_range, Timestamp};
use vstd::prelude::*;
use vstd::string::StringExecFns;
use atom_syndication::Entry as AtomEntry;

verus! {

#[verifier::external_type_specification]
#[verifier::external_body]
pub struct ExAtomEntry(AtomEntry);

/// What an RSS item holds for the feed: its title, link and publication
/// date as written, each where present.
#[derive(Debug)]
pub struct RssItemFields {
    pub title: Option<String>,
    pub link: Option<String>,
    pub pub_date: Option<String>,
}

/// An RSS channel: its title and items in document order.
#[derive(Debug)]
pub struct RssDocument {
    pub title: String,
    pub items: Vec<RssItemFields>,
}

/// What an Atom entry holds for the feed: its title, its links (address and
/// title, in document order), its publication date where present, and the
/// date of its last update; dates as seconds, nanoseconds and offset.
#[derive(Debug)]
pub struct AtomEntryFields {
    pub title: String,
    pub links: Vec<(String, Option<String>)>,
    pub published: Option<(i64, u32, i32)>,
    pub updated: (i64, u32, i32),
}

/// An Atom feed: its title and entries in document order.
#[derive(Debug)]
pub struct AtomDocument {
    pub title: String,
    pub entries: Vec<AtomEntryFields>,
}

/// The view of an optional owned string.
pub open spec fn opt_string_view(s: Option<String>) -> Option<Seq<char>> {
    match s {
        Some(t) => Some(t@),
        None => None,
    }
}

impl RssItemFields {
    pub open spec fn model(self) -> (Option<Seq<char>>, Option<Seq<char>>, Option<Seq<char>>) {
        (opt_string_view(self.title), opt_string_view(self.link), opt_string_view(self.pub_date))
    }
}

impl RssDocument {
    pub open spec fn model(self) -> (
        Seq<char>,
        Seq<(Option<Seq<char>>, Option<Seq<char>>, Option<Seq<char>>)>,
    ) {
        (self.title@, self.items@.map_values(|f: RssItemFields| f.model()))
    }
}

/// The view of a link: its address and its title where present.
pub open spec fn link_model(link: (String, Option<String>)) -> (Seq<char>, Option<Seq<char>>) {
    (link.0@, opt_string_view(link.1))
}

impl AtomEntryFields {
    pub open spec fn model(self) -> (
        Seq<char>,
        Seq<(Seq<char>, Option<Seq<char>>)>,
        Option<(i64, u32, i32)>,
        (i64, u32, i32),
    ) {
        (
            self.title@,
            self.links@.map_values(|l: (String, Option<String>)| link_model(l)),
            self.published,
            self.updated,
        )
    }
}

impl AtomDocument {
    pub open spec fn model(self) -> (
        Seq<char>,
        Seq<
            (
                Seq<char>,
                Seq<(Seq<char>, Option<Seq<char>>)>,
                Option<(i64, u32, i32)>,
                (i64, u32, i32),
            ),
        >,
    ) {
        (self.title@, self.entries@.map_values(|e: AtomEntryFields| e.model()))
    }
}

/// What rss's `Channel::read_from` reads from the bytes `body`: the
/// channel's title and, for each item in order, its title, link and date
/// text; nothing where the bytes are not an RSS channel.
pub uninterp spec fn rss_reading(body: Seq<u8>) -> Option<
    (Seq<char>, Seq<(Option<Seq<char>>, Option<Seq<char>>, Option<Seq<char>>)>),
>;

/// What atom_syndication's `Feed::read_from` reads from the bytes `body`:
/// the feed's title and, for each entry in order, its title, links,
/// publication date and update date; nothing where the bytes are not an
/// Atom feed.
pub uninterp spec fn atom_reading(body: Seq<u8>) -> Option<
    (
        Seq<char>,
        Seq<
            (
                Seq<char>,
                Seq<(Seq<char>, Option<Seq<char>>)>,
                Option<(i64, u32, i32)>,
                (i64, u32, i32),
            ),
        >,
    ),
>;

/// Relies on rss's `Channel::read_from`, `Channel::title`, `Channel::items`
/// and `Item::title`, `Item::link`, `Item::pub_date`: the bytes read as an RSS
/// channel, copied out field by field.
#[verifier::external_body]
pub(crate) fn read_rss(body: &[u8]) -> (r: Result<RssDocument, rss::Error>)
    ensures
        r is Ok <==> rss_reading(body@) is Some,
        r matches Ok(doc) ==> rss_reading(body@) == Some(doc.model()),
{
    let channel = rss::Channel::read_from(body)?;
    let items = channel.items().iter().map(|i| RssItemFields {
        title: i.title().map(String::from),
        link: i.link().map(String::from),
        pub_date: i.pub_date().map(String::from),
    }).collect();
    Ok(RssDocument { title: channel.title().to_string(), items })
}

/// Relies on atom_syndication's `Feed::read_from`, `Feed::title` and
/// `Feed::entries`: the bytes read as an Atom feed, each entry copied out by
/// `atom_entry_fields`.
#[verifier::external_body]
pub(crate) fn read_atom(body: &[u8]) -> (r: Result<AtomDocument, atom_syndication::Error>)
    ensures
        r is Ok <==> atom_reading(body@) is Some,
        r matches Ok(doc) ==> atom_reading(body@) == Some(doc.model()),
{
    let feed = atom_syndication::Feed::read_from(body)?;
    let entries = feed.entries().iter().map(atom_entry_fields).collect();
    Ok(AtomDocument { title: feed.title().as_str().to_string(), entries })
}

/// Relies on atom_syndication's `Entry::title`, `Entry::links` (with
/// `Link::href`, `Link::title`), `Entry::published` and `Entry::updated`, the
/// dates read out through chrono's `DateTime::timestamp`,
/// `DateTime::timestamp_subsec_nanos` and `FixedOffset::local_minus_utc`.
/// What it copies is stated by `read_atom`.
#[verifier::external_body]
fn atom_entry_fields(e: &AtomEntry) -> (r: AtomEntryFields) {
    let links = e.links().iter().map(|l| (l.href().to_string(), l.title().map(String::from)));
    let stamp = |d: &chrono::DateTime<chrono::FixedOffset>| {
        (d.timestamp(), d.timestamp_subsec_nanos(), d.offset().local_minus_utc())
    };
    let updated = stamp(e.updated());
    AtomEntryFields { title: e.title().as_str().to_string(), links: links.collect(), published: e.published().map(stamp), updated }
}

/// An entry seen as its address, title and publication instant.
pub open spec fn entry_fields(e: Entry) -> (Seq<char>, Seq<char>, Timestamp) {
    (e.url@, e.title@, e.published)
}

/// The entries of a feed seen as addresses, titles and instants.
pub open spec fn feed_fields(items: Seq<Entry>) -> Seq<(Seq<char>, Seq<char>, Timestamp)> {
    items.map_values(|e: Entry| entry_fields(e))
}

/// The entries made of the first `n` RSS items, in order: each item with a
/// title and a link gives its link, its title, and its date where that reads
/// in range (else `now`); the other items give none.
pub open spec fn rss_kept(
    items: Seq<(Option<Seq<char>>, Option<Seq<char>>, Option<Seq<char>>)>,
    now: Timestamp,
    n: int,
) -> Seq<(Seq<char>, Seq<char>, Timestamp)>
    decreases n,
{
    if n <= 0 {
        Seq::empty()
    } else {
        let rest = rss_kept(items, now, n - 1);
        let item = items[n - 1];
        match (item.0, item.1) {
            (Some(title), Some(link)) => rest.push((link, title, rss_published(item.2, now))),
            _ => rest,
        }
    }
}

/// The date of an Atom entry: its publication date, else its update date.
pub open spec fn atom_date(
    entry: (Seq<char>, Seq<(Seq<char>, Option<Seq<char>>)>, Option<(i64, u32, i32)>, (i64, u32, i32)),
) -> (i64, u32, i32) {
    match entry.2 {
        Some(d) => d,
        None => entry.3,
    }
}

/// The entries made of the first `n` Atom entries, in order: each entry with
/// a link and a date in range gives its first link's address, that link's
/// title (else its own), and its date; the other entries give none.
pub open spec fn atom_kept(
    entries: Seq<(Seq<char>, Seq<(Seq<char>, Option<Seq<char>>)>, Option<(i64, u32, i32)>, (i64, u32, i32))>,
    n: int,
) -> Seq<(Seq<char>, Seq<char>, Timestamp)>
    decreases n,
{
    if n <= 0 {
        Seq::empty()
    } else {
        let rest = atom_kept(entries, n - 1);
        let e = entries[n - 1];
        let d = atom_date(e);
        if e.1.len() > 0 && in_rfc2822_range(d.0 as int, d.2 as int) {
            rest.push(
                (
                    e.1[0].0,
                    match e.1[0].1 {
                        Some(t) => t,
                        None => e.0,
                    },
                    Timestamp { secs: d.0, nanos: d.1, offset: d.2 },
                ),
            )
        } else {
            rest
        }
    }
}

/// The optional string as a borrowed one.
fn as_opt_str(s: &Option<String>) -> (r: Option<&str>)
    ensures
        opt_view(r) == opt_string_view(*s),
{
    match s {
        Some(t) => Some(t.as_str()),
        None => None,
    }
}

impl Feed {
    /// The feed of an RSS channel. Items without a title or a link are left
    /// out; an item whose date does not read is taken as published at `now`.
    pub fn from_rss(doc: &RssDocument, now: &Timestamp) -> (r: Feed)
        requires
            now.wf(),
        ensures
            r.wf(),
            r.title@ == doc.title@,
            feed_fields(r.items@) == rss_kept(doc.model().1, *now, doc.items@.len() as int),
    {
        let mut entries: Vec<Entry> = Vec::new();
        let mut i: usize = 0;
        while i < doc.items.len()
            invariant
                i <= doc.items@.len(),
                now.wf(),
                forall|k: int| 0 <= k < entries@.len() ==> #[trigger] entries@[k].wf(),
                feed_fields(entries@) == rss_kept(doc.model().1, *now, i as int),
            decreases doc.items@.len() - i,
        {
            let item = &doc.items[i];
            let ghost before = entries@;
            assert(doc.model().1[i as int] == item.model());
            match Entry::from_rss_fields(
                as_opt_str(&item.title),
                as_opt_str(&item.link),
                as_opt_str(&item.pub_date),
                now,
            ) {
                Ok(entry) => {
                    entries.push(entry);
                    assert(feed_fields(entries@) == feed_fields(before).push(entry_fields(entry)));
                },
                Err(_) => {},
            }
            i += 1;
        }
        Feed::new(doc.title.clone(), entries)
    }

    /// The feed of an Atom document. Entries without a link, or dated outside
    /// the years 0 to 9999, are left out; an entry without a publication date
    /// is dated by its last update.
    pub fn from_atom(doc: &AtomDocument) -> (r: Feed)
        ensures
            r.wf(),
            r.title@ == doc.title@,
            feed_fields(r.items@) == atom_kept(doc.model().1, doc.entries@.len() as int),
    {
        let mut entries: Vec<Entry> = Vec::new();
        let mut i: usize = 0;
        while i < doc.entries.len()
            invariant
                i <= doc.entries@.len(),
                forall|k: int| 0 <= k < entries@.len() ==> #[trigger] entries@[k].wf(),
                feed_fields(entries@) == atom_kept(doc.model().1, i as int),
            decreases doc.entries@.len() - i,
        {
            let item = &doc.entries[i];
            let ghost before = entries@;
            assert(doc.model().1[i as int] == item.model());
            let (href, link_title) = if item.links.len() > 0 {
                assert(item.model().1[0] == link_model(item.links@[0]));
                (Some(item.links[0].0.as_str()), as_opt_str(&item.links[0].1))
            } else {
                (None, None)
            };
            let date = match item.published {
                Some(parts) => parts,
                None => item.updated,
            };
            match Entry::from_atom_fields(href, link_title, item.title.as_str(), date) {
                Ok(entry) => {
                    entries.push(entry);
                    assert(feed_fields(entries@) == feed_fields(before).push(entry_fields(entry)));
                },
                Err(_) => {},
            }
            i += 1;
        }
        Feed::new(doc.title.clone(), entries)
    }
}

} // verus!
