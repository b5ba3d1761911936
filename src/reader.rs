//! The decisions of a feed's polling loop: what a fetched response gives, and
//! what follows it.

use crate::config::{FeedConfig, FeedKind};
use crate::feed::Feed;
use crate::payload::Payload;
use crate::sources::{atom_kept, atom_reading, feed_fields, read_atom, read_rss, rss_kept, rss_reading};
use crate::timestamp::Timestamp;
use vstd::prelude::*;

verus! {

#[verifier::external_type_specification]
#[verifier::external_body]
pub struct ExRssError(rss::Error);

#[verifier::external_type_specification]
#[verifier::external_body]
pub struct ExAtomError(atom_syndication::Error);

#[verifier::external_type_specification]
#[verifier::external_body]
pub struct ExHttpError(reqwest::Error);

/// Why a poll gave no feed.
#[derive(Debug)]
pub enum RequestError {
    /// The body is not an Atom document.
    Atom(atom_syndication::Error),
    /// The server answered with this status, which is not a success.
    BadStatus(u16),
    /// The clock reads outside the years 0 to 9999.
    Clock,
    /// The request could not be sent or its answer not read.
    Http(reqwest::Error),
    /// The body is not an RSS document.
    Rss(rss::Error),
}

/// An HTTP status in the success range.
pub open spec fn is_success(status: u16) -> bool {
    200 <= status <= 299
}

/// What follows one poll: the payload to hand on, if any, and the seconds to
/// sleep before the next poll.
#[derive(Debug)]
pub struct Cycle {
    pub payload: Option<Payload>,
    pub sleep_secs: u64,
}

/// Polls one configured feed.
#[derive(Debug)]
pub struct Reader {
    pub config: FeedConfig,
}

impl Reader {
    pub fn new(config: FeedConfig) -> (r: Reader)
        ensures
            r.config == config,
    {
        Reader { config }
    }

    /// The feed in a response with this status and body, read as the kind of
    /// document configured; `now` dates RSS items whose date does not read.
    pub fn read_response(&self, status: u16, body: &[u8], now: &Timestamp) -> (r: Result<
        Feed,
        RequestError,
    >)
        requires
            now.wf(),
        ensures
            !is_success(status) ==> (r matches Err(RequestError::BadStatus(s)) && s == status),
            r matches Ok(feed) ==> is_success(status) && feed.wf(),
            is_success(status) && self.config.kind == FeedKind::Rss ==> match rss_reading(body@) {
                Some(doc) => r matches Ok(feed) && feed.title@ == doc.0 && feed_fields(feed.items@)
                    == rss_kept(doc.1, *now, doc.1.len() as int),
                None => r matches Err(RequestError::Rss(_)),
            },
            is_success(status) && self.config.kind == FeedKind::Atom ==> match atom_reading(body@) {
                Some(doc) => r matches Ok(feed) && feed.title@ == doc.0 && feed_fields(feed.items@)
                    == atom_kept(doc.1, doc.1.len() as int),
                None => r matches Err(RequestError::Atom(_)),
            },
    {
        if status < 200 || status > 299 {
            return Err(RequestError::BadStatus(status));
        }
        match self.config.kind {
            FeedKind::Rss => match read_rss(body) {
                Ok(doc) => Ok(Feed::from_rss(&doc, now)),
                Err(err) => Err(RequestError::Rss(err)),
            },
            FeedKind::Atom => match read_atom(body) {
                Ok(doc) => Ok(Feed::from_atom(&doc)),
                Err(err) => Err(RequestError::Atom(err)),
            },
        }
    }

    /// What follows a poll, whatever it gave: a payload for the configured
    /// chat where a feed with entries came, and in every case a sleep of the
    /// configured interval before the next poll. A failed poll ends nothing.
    pub fn next_cycle(&self, fetched: Result<Feed, RequestError>) -> (r: Cycle)
        ensures
            r.sleep_secs == self.config.request_timeout,
            r.payload is Some <==> (fetched matches Ok(feed) && feed.items@.len() > 0),
            r.payload matches Some(p) ==> p.chat_id == self.config.chat_id && p.config
                == self.config && fetched == Ok::<Feed, RequestError>(p.feed),
    {
        let payload = match fetched {
            Ok(feed) => if feed.items.len() > 0 {
                Some(Payload { chat_id: self.config.chat_id.clone(), config: self.config.clone(), feed })
            } else {
                None
            },
            Err(_) => None,
        };
        Cycle { payload, sleep_secs: self.config.request_timeout }
    }
}

} // verus!
