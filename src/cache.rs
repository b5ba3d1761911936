//! Keys of the delivery ledger, and its failures.
//!
//! The ledger itself is a key-value store outside the library: a key present
//! in it means that the chat has already been sent the entry within the
//! record's lifetime.

use crate::config::{chat_text, ChatId};
use crate::feed::Entry;
use vstd::prelude::*;
use vstd::string::StringExecFns;

verus! {

/// Seconds that a ledger record lives: seven days.
pub const LIFETIME: u64 = 604_800;

#[verifier::external_type_specification]
#[verifier::external_body]
pub struct ExRedisError(redis::RedisError);

/// The standard base64 text, without padding, of the UTF-8 bytes of `s`.
pub uninterp spec fn base64_text(s: Seq<char>) -> Seq<char>;

/// `s` holds no `:`.
pub open spec fn no_colon(s: Seq<char>) -> bool {
    forall|i: int| 0 <= i < s.len() ==> s[i] != ':'
}

/// Relies on base64's `Engine::encode` with the `STANDARD_NO_PAD` engine,
/// applied to the UTF-8 bytes of `text`. The standard alphabet is letters,
/// digits, `+` and `/`, so no `:` appears; base64 is an encoding, so no other
/// text gives the same result.
#[verifier::external_body]
fn encode_base64(text: &str) -> (r: String)
    ensures
        r@ == base64_text(text@),
        no_colon(r@),
        forall|other: Seq<char>| #[trigger] base64_text(other) == r@ ==> other == text@,
{
    base64::Engine::encode(&base64::engine::general_purpose::STANDARD_NO_PAD, text)
}

/// The ledger key for sending the entry at `url` to the chat written `chat`:
/// the prefix `telefeed:`, the base64 of the chat, `:`, and the base64 of
/// the address.
pub open spec fn cache_key_text(chat: Seq<char>, url: Seq<char>) -> Seq<char> {
    "telefeed:"@ + base64_text(chat) + ":"@ + base64_text(url)
}

/// What encoding the two texts showed: neither encoding holds a `:`, and
/// each belongs to its text alone.
pub open spec fn encodings_decodable(chat: Seq<char>, url: Seq<char>) -> bool {
    &&& no_colon(base64_text(chat))
    &&& no_colon(base64_text(url))
    &&& forall|other: Seq<char>| #[trigger]
        base64_text(other) == base64_text(chat) ==> other == chat
    &&& forall|other: Seq<char>| #[trigger]
        base64_text(other) == base64_text(url) ==> other == url
}

/// The ledger key of one (chat, entry address) pair.
#[derive(Debug)]
pub struct CacheKey(pub String);

impl CacheKey {
    pub fn new(chat_id: &ChatId, entry: &Entry) -> (r: CacheKey)
        ensures
            r.0@ == cache_key_text(chat_text(*chat_id), entry.url@),
            encodings_decodable(chat_text(*chat_id), entry.url@),
    {
        let chat = chat_id.text();
        let chat_code = encode_base64(chat.as_str());
        let url_code = encode_base64(entry.url.as_str());
        let mut text = String::from_str("telefeed:");
        text.append(chat_code.as_str());
        text.append(":");
        text.append(url_code.as_str());
        CacheKey(text)
    }

    pub fn as_str(&self) -> (r: &str)
        ensures
            r@ == self.0@,
    {
        self.0.as_str()
    }
}

impl Clone for CacheKey {
    fn clone(&self) -> (r: CacheKey)
        ensures
            r == *self,
    {
        CacheKey(self.0.clone())
    }
}

/// A failed ledger call: the existence check, or the write of a record.
#[derive(Debug)]
pub enum CacheError {
    Exists(redis::RedisError),
    Write(redis::RedisError),
}

/// Keys tell pairs apart: two keys made by `CacheKey::new` are equal only
/// for the same chat text and the same address. (The key is a function of
/// the pair, so the same pair always gets the same key.)
pub proof fn lemma_cache_keys_distinct(
    chat_a: Seq<char>,
    url_a: Seq<char>,
    chat_b: Seq<char>,
    url_b: Seq<char>,
)
    requires
        encodings_decodable(chat_a, url_a),
        encodings_decodable(chat_b, url_b),
        cache_key_text(chat_a, url_a) == cache_key_text(chat_b, url_b),
    ensures
        chat_a == chat_b,
        url_a == url_b,
{
    let prefix = "telefeed:"@;
    let sep = ":"@;
    reveal_strlit(":");
    let ca = base64_text(chat_a);
    let cb = base64_text(chat_b);
    let ua = base64_text(url_a);
    let ub = base64_text(url_b);
    let whole_a = prefix + ca + sep + ua;
    let whole_b = prefix + cb + sep + ub;
    assert(whole_a == whole_b);
    let p = prefix.len() as int;
    if ca.len() < cb.len() {
        assert(whole_a[p + ca.len()] == ':');
        assert(whole_b[p + ca.len()] == cb[ca.len() as int]);
        assert(false);
    } else if cb.len() < ca.len() {
        assert(whole_b[p + cb.len()] == ':');
        assert(whole_a[p + cb.len()] == ca[cb.len() as int]);
        assert(false);
    }
    assert(ca == whole_a.subrange(p, p + ca.len()));
    assert(cb == whole_b.subrange(p, p + cb.len()));
    let q = p + ca.len() + 1;
    assert(ua == whole_a.subrange(q, whole_a.len() as int));
    assert(ub == whole_b.subrange(q, whole_b.len() as int));
}

} // verus!
