//! A payload is one fetched feed routed to one chat. Publishing it walks its
//! fresh entries in order: ask the ledger whether the entry was sent, send it
//! with bounded retries, and record it once sent.
//!
//! The walk is a state machine: [`Publication::action`] names the next thing
//! to do, the caller does it and hands the outcome to
//! [`Publication::advance`].

use crate::cache::{cache_key_text, CacheError, CacheKey};
use crate::config::{chat_text, ChatId, FeedConfig};
use crate::feed::{entry_html, Entry, Feed};
use crate::markup::{escape_html, html_escaped};
use crate::timestamp::{nanos_between, rfc2822_text, Timestamp};
use vstd::prelude::*;
use vstd::string::StringExecFns;

verus! {

/// Entries published longer ago than this many nanoseconds (one day) are
/// never sent.
pub const MAX_ENTRY_AGE: i128 = 86_400_000_000_000;

/// Sends of one message that may follow its first failed send.
pub const MAX_SEND_RETRIES: u64 = 20;

/// Milliseconds added to the wait before each further retry, where the chat
/// service gives no hint.
pub const RETRY_STEP_MILLIS: u64 = 100;

/// One fetched feed, to be published to one chat.
#[derive(Debug)]
pub struct Payload {
    pub chat_id: ChatId,
    pub config: FeedConfig,
    pub feed: Feed,
}

/// The entry was published at most one day before `now` (or after it).
pub open spec fn is_fresh(entry: Entry, now: Timestamp) -> bool {
    nanos_between(now, entry.published) <= MAX_ENTRY_AGE
}

/// Indices of the fresh entries among the first `n`, in order.
pub open spec fn fresh_prefix(items: Seq<Entry>, now: Timestamp, n: int) -> Seq<usize>
    decreases n,
{
    if n <= 0 {
        Seq::empty()
    } else {
        let rest = fresh_prefix(items, now, n - 1);
        if is_fresh(items[n - 1], now) {
            rest.push((n - 1) as usize)
        } else {
            rest
        }
    }
}

/// Indices of the fresh entries, in order.
pub open spec fn fresh_indices(items: Seq<Entry>, now: Timestamp) -> Seq<usize> {
    fresh_prefix(items, now, items.len() as int)
}

/// The message for an entry whose HTML is `html`: where the feed's title is
/// included, its escaped text and `: ` come first.
pub open spec fn message_text(include_title: bool, feed_title: Seq<char>, html: Seq<char>) -> Seq<char> {
    if include_title {
        html_escaped(feed_title) + ": "@ + html
    } else {
        html
    }
}

/// The message that a payload sends for `entry`.
pub open spec fn entry_message(payload: Payload, entry: Entry) -> Seq<char> {
    message_text(
        payload.config.include_feed_title,
        payload.feed.title@,
        entry_html(
            entry.url@,
            entry.title@,
            rfc2822_text(entry.published.secs as int, entry.published.offset as int),
        ),
    )
}

/// The ledger key under which a payload records `entry`.
pub open spec fn entry_key(payload: Payload, entry: Entry) -> Seq<char> {
    cache_key_text(chat_text(payload.chat_id), entry.url@)
}

impl Payload {
    pub open spec fn wf(&self) -> bool {
        self.feed.wf()
    }

    /// Indices of the entries published at most one day before `now`, in
    /// feed order; older entries are left out.
    pub fn fresh_entries(&self, now: &Timestamp) -> (r: Vec<usize>)
        requires
            self.wf(),
            now.wf(),
        ensures
            r@ == fresh_indices(self.feed.items@, *now),
            self.feed.items@.len() <= usize::MAX,
    {
        let items = &self.feed.items;
        let mut r: Vec<usize> = Vec::new();
        let mut i: usize = 0;
        while i < items.len()
            invariant
                i <= items@.len(),
                items == &self.feed.items,
                self.wf(),
                now.wf(),
                r@ == fresh_prefix(items@, *now, i as int),
            decreases items@.len() - i,
        {
            assert(items@[i as int].wf());
            if now.nanos_since(&items[i].published) <= MAX_ENTRY_AGE {
                r.push(i);
            }
            i += 1;
        }
        r
    }

    /// The message text for the entry at `index`.
    pub fn message(&self, index: usize) -> (r: String)
        requires
            self.wf(),
            index < self.feed.items@.len(),
        ensures
            r@ == entry_message(*self, self.feed.items@[index as int]),
    {
        let entry = &self.feed.items[index];
        assert(self.feed.items@[index as int].wf());
        let html = entry.as_html();
        if self.config.include_feed_title {
            let mut text = escape_html(self.feed.title.as_str());
            text.append(": ");
            text.append(html.as_str());
            text
        } else {
            html
        }
    }

    /// The ledger key for the entry at `index`.
    pub fn cache_key(&self, index: usize) -> (r: CacheKey)
        requires
            index < self.feed.items@.len(),
        ensures
            r.0@ == entry_key(*self, self.feed.items@[index as int]),
    {
        CacheKey::new(&self.chat_id, &self.feed.items[index])
    }
}

/// Milliseconds to wait before retry number `retry` of a send: the chat
/// service's hint in seconds where it gave one (capped at the largest `u64`),
/// else `retry` steps of `RETRY_STEP_MILLIS`.
pub open spec fn backoff_millis(retry: int, retry_after: Option<u64>) -> int {
    match retry_after {
        Some(secs) => if secs * 1000 <= u64::MAX {
            secs * 1000
        } else {
            u64::MAX as int
        },
        None => retry * RETRY_STEP_MILLIS,
    }
}

/// The wait before retry number `retry` of a send.
pub fn retry_wait(retry: u64, retry_after: Option<u64>) -> (r: u64)
    requires
        retry <= MAX_SEND_RETRIES,
    ensures
        r as int == backoff_millis(retry as int, retry_after),
{
    match retry_after {
        Some(secs) => if secs <= u64::MAX / 1000 {
            secs * 1000
        } else {
            u64::MAX
        },
        None => retry * RETRY_STEP_MILLIS,
    }
}

/// Where the publication of a payload stands.
#[derive(Clone, Copy, Debug, PartialEq, Eq, Structural)]
pub enum Stage {
    /// Waiting for the ledger's answer for the current entry.
    Lookup,
    /// Waiting for the outcome of a send of the current entry.
    Send,
    /// Waiting before the next send of the current entry.
    Wait,
    /// Waiting for the ledger write of the current entry.
    Record,
    /// Every fresh entry has been dealt with.
    Done,
}

/// Control state of a publication: the position in the queue of fresh
/// entries, the retries made for the current entry, the wait asked for, and
/// the stage.
#[derive(Clone, Copy, Debug, PartialEq, Eq, Structural)]
pub struct Progress {
    pub position: usize,
    pub retries: u64,
    pub wait_millis: u64,
    pub stage: Stage,
}

/// What came of the last action.
#[derive(Debug)]
pub enum Outcome {
    /// The ledger answered whether the key is present, or failed.
    Looked(Result<bool, CacheError>),
    /// The message was sent.
    Delivered,
    /// The send failed; the chat service may have said how many seconds to
    /// wait.
    Failed(Option<u64>),
    /// The wait is over.
    Waited,
    /// The ledger write succeeded or failed.
    Recorded(Result<(), CacheError>),
}

/// The next thing to do.
#[derive(Debug)]
pub enum Action {
    /// Ask the ledger whether this key is present.
    Lookup(CacheKey),
    /// Send this text to the payload's chat.
    Send(String),
    /// Wait this many milliseconds.
    Wait(u64),
    /// Write a record under this key, living `LIFETIME` seconds.
    Record(CacheKey),
    /// Nothing is left to do.
    Finish,
}

/// The outcome answers an action of the stage.
pub open spec fn fits(stage: Stage, outcome: Outcome) -> bool {
    match outcome {
        Outcome::Looked(_) => stage == Stage::Lookup,
        Outcome::Delivered => stage == Stage::Send,
        Outcome::Failed(_) => stage == Stage::Send,
        Outcome::Waited => stage == Stage::Wait,
        Outcome::Recorded(_) => stage == Stage::Record,
    }
}

/// The progress that deals with the next entry of a queue of `len`.
pub open spec fn moved_on(p: Progress, len: int) -> Progress {
    Progress {
        position: (p.position + 1) as usize,
        retries: 0,
        wait_millis: 0,
        stage: if p.position + 1 < len {
            Stage::Lookup
        } else {
            Stage::Done
        },
    }
}

/// The progress after `outcome`, in a queue of `len` fresh entries. A present
/// key skips the entry; a missing key or a failed lookup sends it. A failed
/// send waits and retries while fewer than `MAX_SEND_RETRIES` retries were
/// made, else the entry is given up. A sent entry is recorded, and whatever
/// the write gives, the next entry follows.
pub open spec fn next_progress(p: Progress, len: int, outcome: Outcome) -> Progress {
    match outcome {
        Outcome::Looked(found) => if found == Ok::<bool, CacheError>(true) {
            moved_on(p, len)
        } else {
            Progress { stage: Stage::Send, ..p }
        },
        Outcome::Delivered => Progress { stage: Stage::Record, ..p },
        Outcome::Failed(retry_after) => if p.retries >= MAX_SEND_RETRIES {
            moved_on(p, len)
        } else {
            Progress {
                retries: (p.retries + 1) as u64,
                wait_millis: backoff_millis(p.retries + 1, retry_after) as u64,
                stage: Stage::Wait,
                ..p
            }
        },
        Outcome::Waited => Progress { stage: Stage::Send, ..p },
        Outcome::Recorded(_) => moved_on(p, len),
    }
}

/// The publication of one payload.
#[derive(Debug)]
pub struct Publication {
    pub payload: Payload,
    pub now: Timestamp,
    pub queue: Vec<usize>,
    pub progress: Progress,
}

impl Publication {
    pub open spec fn wf(&self) -> bool {
        &&& self.payload.wf()
        &&& self.now.wf()
        &&& self.payload.feed.items@.len() <= usize::MAX
        &&& self.queue@ == fresh_indices(self.payload.feed.items@, self.now)
        &&& self.progress.position <= self.queue@.len()
        &&& (self.progress.stage == Stage::Done <==> self.progress.position == self.queue@.len())
        &&& self.progress.retries <= MAX_SEND_RETRIES
    }

    /// The entry being dealt with.
    pub open spec fn current(&self) -> Entry {
        self.payload.feed.items@[self.queue@[self.progress.position as int] as int]
    }

    /// Starts publishing the entries of `payload` that are fresh at `now`.
    pub fn new(payload: Payload, now: Timestamp) -> (r: Publication)
        requires
            payload.wf(),
            now.wf(),
        ensures
            r.wf(),
            r.payload == payload,
            r.now == now,
            r.progress == (Progress {
                position: 0,
                retries: 0,
                wait_millis: 0,
                stage: if r.queue@.len() > 0 {
                    Stage::Lookup
                } else {
                    Stage::Done
                },
            }),
    {
        let queue = payload.fresh_entries(&now);
        let stage = if queue.len() > 0 {
            Stage::Lookup
        } else {
            Stage::Done
        };
        Publication {
            payload,
            now,
            queue,
            progress: Progress { position: 0, retries: 0, wait_millis: 0, stage },
        }
    }

    /// Whether `outcome` answers the action now asked for.
    pub fn accepts(&self, outcome: &Outcome) -> (r: bool)
        ensures
            r == fits(self.progress.stage, *outcome),
    {
        match outcome {
            Outcome::Looked(_) => self.progress.stage == Stage::Lookup,
            Outcome::Delivered => self.progress.stage == Stage::Send,
            Outcome::Failed(_) => self.progress.stage == Stage::Send,
            Outcome::Waited => self.progress.stage == Stage::Wait,
            Outcome::Recorded(_) => self.progress.stage == Stage::Record,
        }
    }

    /// The action that the current stage asks for.
    pub fn action(&self) -> (r: Action)
        requires
            self.wf(),
        ensures
            self.progress.stage == Stage::Lookup ==> (r matches Action::Lookup(k) && k.0@ == entry_key(
                self.payload,
                self.current(),
            )),
            self.progress.stage == Stage::Send ==> (r matches Action::Send(t) && t@ == entry_message(
                self.payload,
                self.current(),
            )),
            self.progress.stage == Stage::Wait ==> r == Action::Wait(self.progress.wait_millis),
            self.progress.stage == Stage::Record ==> (r matches Action::Record(k) && k.0@ == entry_key(
                self.payload,
                self.current(),
            )),
            self.progress.stage == Stage::Done ==> r is Finish,
    {
        match self.progress.stage {
            Stage::Done => Action::Finish,
            Stage::Wait => Action::Wait(self.progress.wait_millis),
            stage => {
                proof {
                    lemma_fresh_prefix_indices(
                        self.payload.feed.items@,
                        self.now,
                        self.payload.feed.items@.len() as int,
                    );
                }
                let index = self.queue[self.progress.position];
                match stage {
                    Stage::Send => Action::Send(self.payload.message(index)),
                    Stage::Record => Action::Record(self.payload.cache_key(index)),
                    _ => Action::Lookup(self.payload.cache_key(index)),
                }
            },
        }
    }

    /// Takes in the outcome of the last action.
    pub fn advance(&mut self, outcome: Outcome)
        requires
            old(self).wf(),
            fits(old(self).progress.stage, outcome),
        ensures
            final(self).wf(),
            final(self).payload == old(self).payload,
            final(self).now == old(self).now,
            final(self).queue == old(self).queue,
            final(self).progress == next_progress(
                old(self).progress,
                old(self).queue@.len() as int,
                outcome,
            ),
    {
        let p = self.progress;
        let len = self.queue.len();
        let next = match outcome {
            Outcome::Looked(Ok(true)) => Publication::move_on(p, len),
            Outcome::Looked(_) => Progress { stage: Stage::Send, ..p },
            Outcome::Delivered => Progress { stage: Stage::Record, ..p },
            Outcome::Failed(retry_after) => {
                if p.retries >= MAX_SEND_RETRIES {
                    Publication::move_on(p, len)
                } else {
                    let retries = p.retries + 1;
                    Progress {
                        retries,
                        wait_millis: retry_wait(retries, retry_after),
                        stage: Stage::Wait,
                        ..p
                    }
                }
            },
            Outcome::Waited => Progress { stage: Stage::Send, ..p },
            Outcome::Recorded(_) => Publication::move_on(p, len),
        };
        self.progress = next;
    }

    fn move_on(p: Progress, len: usize) -> (r: Progress)
        requires
            p.position < len,
        ensures
            r == moved_on(p, len as int),
    {
        let position = p.position + 1;
        Progress {
            position,
            retries: 0,
            wait_millis: 0,
            stage: if position < len {
                Stage::Lookup
            } else {
                Stage::Done
            },
        }
    }
}

/// Every index in the fresh prefix is below `n` and names a fresh entry, and
/// the indices increase.
pub proof fn lemma_fresh_prefix_indices(items: Seq<Entry>, now: Timestamp, n: int)
    requires
        n <= items.len() <= usize::MAX,
    ensures
        fresh_prefix(items, now, n).len() <= if n < 0 {
            0
        } else {
            n
        },
        forall|k: int|
            0 <= k < fresh_prefix(items, now, n).len() ==> {
                let j = #[trigger] fresh_prefix(items, now, n)[k];
                &&& 0 <= j < n
                &&& is_fresh(items[j as int], now)
            },
        forall|a: int, b: int|
            0 <= a < b < fresh_prefix(items, now, n).len() ==> fresh_prefix(items, now, n)[a]
                < fresh_prefix(items, now, n)[b],
    decreases n,
{
    if n > 0 {
        lemma_fresh_prefix_indices(items, now, n - 1);
        let rest = fresh_prefix(items, now, n - 1);
        let all = fresh_prefix(items, now, n);
        if is_fresh(items[n - 1], now) {
            assert(all == rest.push((n - 1) as usize));
            assert forall|a: int, b: int| 0 <= a < b < all.len() implies all[a] < all[b] by {
                if b < rest.len() {
                    assert(all[a] == rest[a] && all[b] == rest[b]);
                } else {
                    assert(all[a] == rest[a]);
                }
            }
        } else {
            assert(all == rest);
        }
    }
}

/// A stale entry is never sent: no entry published more than a day before
/// the publication's `now` is queued, and the entry that a publication looks up, sends, waits
/// for or records is always fresh.
pub proof fn lemma_stale_entry_never_sent(p: Publication, i: int)
    requires
        p.wf(),
        0 <= i < p.payload.feed.items@.len(),
        !is_fresh(p.payload.feed.items@[i], p.now),
    ensures
        forall|k: int| 0 <= k < p.queue@.len() ==> p.queue@[k] != i,
        p.progress.stage != Stage::Done ==> is_fresh(p.current(), p.now),
{
    lemma_fresh_prefix_indices(p.payload.feed.items@, p.now, p.payload.feed.items@.len() as int);
    if p.progress.stage != Stage::Done {
        let k = p.progress.position as int;
        assert(0 <= k < p.queue@.len());
    }
    assert forall|k: int| 0 <= k < p.queue@.len() implies p.queue@[k] != i by {
        let j = p.queue@[k];
        assert(is_fresh(p.payload.feed.items@[j as int], p.now));
    }
}

/// Once an entry was sent and its record written, a later publication of the
/// same address to the same chat asks the ledger under the same key. While
/// the record lives the ledger answers that the key is present, and the entry
/// is passed over: the next stage is not a send.
pub proof fn lemma_recorded_entry_suppressed(
    first: Publication,
    later: Publication,
    ledger: Set<Seq<char>>,
)
    requires
        first.wf(),
        later.wf(),
        first.progress.stage == Stage::Record,
        ledger.contains(entry_key(first.payload, first.current())),
        later.progress.stage == Stage::Lookup,
        chat_text(later.payload.chat_id) == chat_text(first.payload.chat_id),
        later.current().url@ == first.current().url@,
    ensures
        entry_key(later.payload, later.current()) == entry_key(first.payload, first.current()),
        ({
            let next = next_progress(
                later.progress,
                later.queue@.len() as int,
                Outcome::Looked(Ok(ledger.contains(entry_key(later.payload, later.current())))),
            );
            next.position == later.progress.position + 1 && next.stage != Stage::Send
        }),
{
    lemma_fresh_prefix_indices(
        later.payload.feed.items@,
        later.now,
        later.payload.feed.items@.len() as int,
    );
}

/// One entry is retried at most `MAX_SEND_RETRIES` times: after a failed send
/// the publication waits and retries only while fewer retries were made, and
/// gives the entry up otherwise. The wait is the service's hint where it gave
/// one, else `RETRY_STEP_MILLIS` times the retry number.
pub proof fn lemma_retries_bounded(p: Progress, len: int, retry_after: Option<u64>)
    requires
        p.stage == Stage::Send,
        p.retries <= MAX_SEND_RETRIES,
        p.position < len <= usize::MAX,
    ensures
        ({
            let next = next_progress(p, len, Outcome::Failed(retry_after));
            &&& next.retries <= MAX_SEND_RETRIES
            &&& p.retries < MAX_SEND_RETRIES ==> next.stage == Stage::Wait && next.retries
                == p.retries + 1 && next.position == p.position && next.wait_millis as int
                == backoff_millis(next.retries as int, retry_after)
            &&& p.retries == MAX_SEND_RETRIES ==> next.position == p.position + 1 && next.retries
                == 0 && next.stage != Stage::Send && next.stage != Stage::Wait
        }),
{
}

/// Without a hint from the service, a later retry waits longer than an
/// earlier one.
pub proof fn lemma_backoff_grows(earlier: int, later: int)
    requires
        1 <= earlier < later,
    ensures
        backoff_millis(earlier, None) < backoff_millis(later, None),
{
}

} // verus!
