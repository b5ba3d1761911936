//! The feed model: a title and its entries, each with an address, a title
//! and the instant it was published.

use crate::markup::{escape_html, html_escaped};
use crate::timestamp::{days_between, in_rfc2822_range, rfc2822_reading, rfc2822_text, Timestamp};
use vstd::prelude::*;
use vstd::string::StringExecFns;

verus! {

/// One item of a feed.
#[derive(Debug)]
pub struct Entry {
    pub url: String,
    pub title: String,
    pub published: Timestamp,
}

/// Why an item of a parsed document gives no entry.
#[derive(Clone, Copy, Debug, PartialEq, Eq, Structural)]
pub enum EntryError {
    NoTitle,
    NoUrl,
    NoDate,
}

/// Why a parsed document gives no feed.
#[derive(Clone, Copy, Debug, PartialEq, Eq, Structural)]
pub enum FeedError {
    Entry(EntryError),
}

impl From<EntryError> for FeedError {
    fn from(err: EntryError) -> (r: FeedError) {
        FeedError::Entry(err)
    }
}

impl vstd::std_specs::convert::FromSpecImpl<EntryError> for FeedError {
    open spec fn obeys_from_spec() -> bool {
        true
    }

    open spec fn from_spec(err: EntryError) -> FeedError {
        FeedError::Entry(err)
    }
}

impl EntryError {
    /// What went wrong, in words.
    pub fn message(&self) -> (r: String)
        ensures
            r@ == match *self {
                EntryError::NoTitle => "title is missing"@,
                EntryError::NoUrl => "url is missing"@,
                EntryError::NoDate => "date is missing or out of range"@,
            },
    {
        match self {
            EntryError::NoTitle => String::from_str("title is missing"),
            EntryError::NoUrl => String::from_str("url is missing"),
            EntryError::NoDate => String::from_str("date is missing or out of range"),
        }
    }
}

impl FeedError {
    /// What went wrong, in words.
    pub fn message(&self) -> (r: String)
        ensures
            r@ == match *self {
                FeedError::Entry(err) => "can not read entry: "@ + match err {
                    EntryError::NoTitle => "title is missing"@,
                    EntryError::NoUrl => "url is missing"@,
                    EntryError::NoDate => "date is missing or out of range"@,
                },
            },
    {
        match self {
            FeedError::Entry(err) => {
                let mut text = String::from_str("can not read entry: ");
                let detail = err.message();
                text.append(detail.as_str());
                text
            },
        }
    }
}

/// The HTML of an entry: a link to `url` named by the escaped `title`, then
/// the publication date in parentheses.
pub open spec fn entry_html(url: Seq<char>, title: Seq<char>, date: Seq<char>) -> Seq<char> {
    "<a href=\""@ + url + "\">"@ + html_escaped(title) + "</a> ("@ + date + ")"@
}

/// The view of an optional string.
pub open spec fn opt_view(s: Option<&str>) -> Option<Seq<char>> {
    match s {
        Some(t) => Some(t@),
        None => None,
    }
}

/// When an RSS item was published: its date where that reads as an RFC 2822
/// date in the years 0 to 9999, else `now`.
pub open spec fn rss_published(pub_date: Option<Seq<char>>, now: Timestamp) -> Timestamp {
    match pub_date {
        Some(d) => match rfc2822_reading(d) {
            Some(p) => if in_rfc2822_range(p.0, p.2) {
                Timestamp { secs: p.0 as i64, nanos: p.1 as u32, offset: p.2 as i32 }
            } else {
                now
            },
            None => now,
        },
        None => now,
    }
}

impl Entry {
    pub open spec fn wf(&self) -> bool {
        self.published.wf()
    }

    pub fn new(url: String, title: String, published: Timestamp) -> (r: Entry)
        ensures
            r.url@ == url@,
            r.title@ == title@,
            r.published == published,
    {
        Entry { url, title, published }
    }

    pub fn url(&self) -> (r: &str)
        ensures
            r@ == self.url@,
    {
        self.url.as_str()
    }

    pub fn title(&self) -> (r: &str)
        ensures
            r@ == self.title@,
    {
        self.title.as_str()
    }

    /// Whole days from publication to `now`, rounded toward zero.
    pub fn age(&self, now: &Timestamp) -> (r: i64)
        requires
            self.wf(),
            now.wf(),
        ensures
            r as int == days_between(*now, self.published),
    {
        now.days_since(&self.published)
    }

    /// The entry as HTML: a link named by its escaped title, then its
    /// publication date in RFC 2822 form in parentheses.
    pub fn as_html(&self) -> (r: String)
        requires
            self.wf(),
        ensures
            r@ == entry_html(
                self.url@,
                self.title@,
                rfc2822_text(self.published.secs as int, self.published.offset as int),
            ),
    {
        let mut r = String::from_str("<a href=\"");
        r.append(self.url.as_str());
        r.append("\">");
        let title = escape_html(self.title.as_str());
        r.append(title.as_str());
        r.append("</a> (");
        let date = self.published.to_rfc2822();
        r.append(date.as_str());
        r.append(")");
        r
    }

    /// The entry of an RSS item with these fields. A title and a link are
    /// required; a date that does not read is taken as `now`.
    pub fn from_rss_fields(
        title: Option<&str>,
        link: Option<&str>,
        pub_date: Option<&str>,
        now: &Timestamp,
    ) -> (r: Result<Entry, EntryError>)
        requires
            now.wf(),
        ensures
            title is None ==> r == Err::<Entry, EntryError>(EntryError::NoTitle),
            title is Some && link is None ==> r == Err::<Entry, EntryError>(EntryError::NoUrl),
            title is Some && link is Some ==> r is Ok,
            r matches Ok(e) ==> e.wf() && opt_view(title) == Some(e.title@) && opt_view(link)
                == Some(e.url@) && e.published == rss_published(opt_view(pub_date), *now),
    {
        let title = match title {
            Some(t) => t,
            None => return Err(EntryError::NoTitle),
        };
        let url = match link {
            Some(l) => l,
            None => return Err(EntryError::NoUrl),
        };
        let published = match pub_date {
            Some(d) => match Timestamp::parse_rfc2822(d) {
                Some(t) => t,
                None => *now,
            },
            None => *now,
        };
        Ok(Entry::new(String::from_str(url), String::from_str(title), published))
    }

    /// The entry of an Atom entry with these fields: the address and title of
    /// its first link (none where it has no link), its own title, and its
    /// date as seconds, nanoseconds and offset. The link's title is preferred
    /// to the entry's.
    pub fn from_atom_fields(
        href: Option<&str>,
        link_title: Option<&str>,
        entry_title: &str,
        date: (i64, u32, i32),
    ) -> (r: Result<Entry, EntryError>)
        ensures
            href is None ==> r == Err::<Entry, EntryError>(EntryError::NoUrl),
            href is Some && !in_rfc2822_range(date.0 as int, date.2 as int) ==> r == Err::<
                Entry,
                EntryError,
            >(EntryError::NoDate),
            href is Some && in_rfc2822_range(date.0 as int, date.2 as int) ==> r is Ok,
            r matches Ok(e) ==> e.wf() && opt_view(href) == Some(e.url@) && e.title@ == (
            match link_title {
                Some(t) => t@,
                None => entry_title@,
            }) && e.published == (Timestamp { secs: date.0, nanos: date.1, offset: date.2 }),
    {
        let url = match href {
            Some(h) => h,
            None => return Err(EntryError::NoUrl),
        };
        let published = match Timestamp::new(date.0, date.1, date.2) {
            Some(t) => t,
            None => return Err(EntryError::NoDate),
        };
        let title = match link_title {
            Some(t) => t,
            None => entry_title,
        };
        Ok(Entry::new(String::from_str(url), String::from_str(title), published))
    }
}

/// A parsed document: its title and its entries in document order.
#[derive(Debug)]
pub struct Feed {
    pub title: String,
    pub items: Vec<Entry>,
}

impl Feed {
    pub open spec fn wf(&self) -> bool {
        forall|i: int| 0 <= i < self.items@.len() ==> #[trigger] self.items@[i].wf()
    }

    /// Whether every entry's date is in range.
    pub fn is_valid(&self) -> (r: bool)
        ensures
            r == self.wf(),
    {
        let mut i: usize = 0;
        while i < self.items.len()
            invariant
                i <= self.items@.len(),
                forall|k: int| 0 <= k < i ==> #[trigger] self.items@[k].wf(),
            decreases self.items@.len() - i,
        {
            if !self.items[i].published.is_valid() {
                assert(!self.items@[i as int].wf());
                return false;
            }
            i += 1;
        }
        true
    }

    pub fn new(title: String, items: Vec<Entry>) -> (r: Feed)
        ensures
            r.title@ == title@,
            r.items@ == items@,
    {
        Feed { title, items }
    }

    pub fn title(&self) -> (r: &str)
        ensures
            r@ == self.title@,
    {
        self.title.as_str()
    }

    pub fn entries(&self) -> (r: &[Entry])
        ensures
            r@ == self.items@,
    {
        self.items.as_slice()
    }
}

} // verus!
