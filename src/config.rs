//! What one configured feed is: where it is read from, how, and where its
//! entries go.

use crate::markup::{decimal_text, integer_text};
use vstd::prelude::*;
use vstd::string::StringExecFns;

verus! {

/// Kind of a syndication document.
#[derive(Clone, Copy, Debug, PartialEq, Eq, Structural)]
pub enum FeedKind {
    Rss,
    Atom,
}

/// A chat that messages go to: by its numeric id or by its `@username`.
#[derive(Debug)]
pub enum ChatId {
    Id(i64),
    Username(String),
}

impl Clone for ChatId {
    fn clone(&self) -> (r: ChatId)
        ensures
            r == *self,
    {
        match self {
            ChatId::Id(n) => ChatId::Id(*n),
            ChatId::Username(name) => ChatId::Username(name.clone()),
        }
    }
}

/// The text of a chat id: the number in decimal, or the username as it is.
pub open spec fn chat_text(chat: ChatId) -> Seq<char> {
    match chat {
        ChatId::Id(n) => decimal_text(n as int),
        ChatId::Username(name) => name@,
    }
}

impl ChatId {
    /// The text of the chat id, as it is shown.
    pub fn text(&self) -> (r: String)
        ensures
            r@ == chat_text(*self),
    {
        match self {
            ChatId::Id(n) => integer_text(*n),
            ChatId::Username(name) => name.clone(),
        }
    }
}

/// One feed to poll: the chat its entries go to, its address and kind,
/// whether messages start with the feed's title, and the seconds to wait
/// between two polls.
#[derive(Debug)]
pub struct FeedConfig {
    pub chat_id: ChatId,
    pub url: String,
    pub kind: FeedKind,
    pub include_feed_title: bool,
    pub request_timeout: u64,
}

impl Clone for FeedConfig {
    fn clone(&self) -> (r: FeedConfig)
        ensures
            r == *self,
    {
        FeedConfig {
            chat_id: self.chat_id.clone(),
            url: self.url.clone(),
            kind: self.kind,
            include_feed_title: self.include_feed_title,
            request_timeout: self.request_timeout,
        }
    }
}

/// Whether messages start with the feed's title, where neither the feed nor
/// the configuration says.
pub const DEFAULT_INCLUDE_FEED_TITLE: bool = false;

/// Seconds between two polls of a feed, where neither the feed nor the
/// configuration says.
pub const DEFAULT_REQUEST_TIMEOUT: u64 = 1200;

/// What std's `str::parse::<i64>` reads from `text`, or nothing.
pub uninterp spec fn i64_reading(text: Seq<char>) -> Option<int>;

/// Relies on std's `str::parse::<i64>` (`FromStr`), which reads an optional
/// sign and decimal digits into an `i64`, or fails.
#[verifier::external_body]
fn parse_i64(text: &str) -> (r: Option<i64>)
    ensures
        r matches Some(n) ==> i64_reading(text@) == Some(n as int),
        r is None ==> i64_reading(text@) is None,
{
    text.parse::<i64>().ok()
}

/// The chat that a configuration key names: its number where it reads as
/// one, else a username.
pub open spec fn chat_of_key(key: Seq<char>, chat: ChatId) -> bool {
    match i64_reading(key) {
        Some(n) => chat == ChatId::Id(n as i64),
        None => chat matches ChatId::Username(name) && name@ == key,
    }
}

impl ChatId {
    /// The chat that a configuration key names.
    pub fn from_key(key: &str) -> (r: ChatId)
        ensures
            chat_of_key(key@, r),
    {
        match parse_i64(key) {
            Some(n) => ChatId::Id(n),
            None => ChatId::Username(String::from_str(key)),
        }
    }
}

/// The value given, else the default given, else the built-in default.
pub open spec fn pick<T>(own: Option<T>, fallback: Option<T>, built_in: T) -> T {
    match own {
        Some(v) => v,
        None => match fallback {
            Some(v) => v,
            None => built_in,
        },
    }
}

impl FeedConfig {
    /// A feed's configuration from what was written for it, with the
    /// configuration-wide defaults and then the built-in ones filling what it
    /// leaves open.
    pub fn resolve(
        chat_id: ChatId,
        url: String,
        kind: FeedKind,
        include_feed_title: Option<bool>,
        request_timeout: Option<u64>,
        default_include_feed_title: Option<bool>,
        default_request_timeout: Option<u64>,
    ) -> (r: FeedConfig)
        ensures
            r.chat_id == chat_id,
            r.url == url,
            r.kind == kind,
            r.include_feed_title == pick(
                include_feed_title,
                default_include_feed_title,
                DEFAULT_INCLUDE_FEED_TITLE,
            ),
            r.request_timeout == pick(
                request_timeout,
                default_request_timeout,
                DEFAULT_REQUEST_TIMEOUT,
            ),
    {
        let include_feed_title = match include_feed_title {
            Some(v) => v,
            None => match default_include_feed_title {
                Some(v) => v,
                None => DEFAULT_INCLUDE_FEED_TITLE,
            },
        };
        let request_timeout = match request_timeout {
            Some(v) => v,
            None => match default_request_timeout {
                Some(v) => v,
                None => DEFAULT_REQUEST_TIMEOUT,
            },
        };
        FeedConfig { chat_id, url, kind, include_feed_title, request_timeout }
    }
}

/// The whole configuration: the chat service's token, the ledger's address,
/// and the feeds.
#[derive(Debug)]
pub struct Config {
    pub token: String,
    pub redis_url: String,
    pub feeds: Vec<FeedConfig>,
}

impl Config {
    pub fn new(token: String, redis_url: String, feeds: Vec<FeedConfig>) -> (r: Config)
        ensures
            r.token == token,
            r.redis_url == redis_url,
            r.feeds == feeds,
    {
        Config { token, redis_url, feeds }
    }

    pub fn get_token(&self) -> (r: &str)
        ensures
            r@ == self.token@,
    {
        self.token.as_str()
    }

    pub fn redis_url(&self) -> (r: &str)
        ensures
            r@ == self.redis_url@,
    {
        self.redis_url.as_str()
    }

    pub fn into_feeds(self) -> (r: Vec<FeedConfig>)
        ensures
            r == self.feeds,
    {
        self.feeds
    }
}

} // verus!
