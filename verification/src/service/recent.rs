//! The recent messages of a channel, read through the cache.
//!
//! The cache keeps a list of a channel's newest messages. A read takes the
//! list when it holds a full page; when it holds only part of a page, the rest
//! comes from the database and the two are merged. When the list is empty, a
//! short-lived lock names one reader to rebuild it from the database; other
//! readers wait and read the cache again a bounded number of times before
//! going to the database themselves.
//!
//! [`RecentMessages`] holds the decisions. The caller performs each action it
//! returns and hands the outcome back as the next event, until the action is
//! [`RecentAction::Finish`].

use vstd::prelude::*;

use crate::dto::{MessageView, RspMessage};
use crate::service::message::{
    cached_page, cached_page_with_markers, lemma_dedup_extends, lemma_dedup_keeps_ids,
    lemma_dedup_keeps_only_given_messages, lemma_dedup_of_distinct_ids,
    lemma_parsed_entries_are_the_parsed_messages, copy_messages, dedup_by_id, entries_or_marker, entries_view, gap_window,
    ids, lemma_dedup_has_unique_ids, merge_recent_messages, messages_view, parsed_entries,
    recent_messages_key, recent_messages_key_text, recent_messages_lock_key,
    recent_messages_lock_key_text, valid_entries, gap_page_limit, GAP_MARGIN,
};
use crate::service::ServiceError;
use crate::util::{generate_id, is_v7_uuid};

verus! {

/// Seconds after which a refresh lock lapses on its own.
pub const LOCK_TTL_SECS: i64 = 5;

/// Milliseconds a reader waits before reading the cache again.
pub const RETRY_DELAY_MILLIS: u64 = 100;

/// Times a waiting reader reads the cache again before it goes to the
/// database.
pub const MAX_CACHE_RETRIES: u64 = 10;

/// The script that removes the refresh lock only when it still holds the
/// releasing reader's token, so that a lapsed lock taken by another reader
/// is left alone.
pub const UNLOCK_SCRIPT: &'static str = "
        if redis.call(\"get\", KEYS[1]) == ARGV[1] then
            return redis.call(\"del\", KEYS[1])
        else
            return 0
        end
    ";

/// Seconds a rebuilt list is kept in the cache.
pub const CACHE_TTL_SECS: i64 = 86400;

/// Where a read of recent messages stands.
#[derive(PartialEq, Eq, Structural, Clone, Copy)]
pub enum RecentPhase {
    /// Waiting for the cached list.
    ReadingCache,
    /// Waiting for the database page that completes a partial list.
    LoadingGap,
    /// Waiting to learn whether this reader holds the refresh lock.
    Locking,
    /// Waiting out the delay before reading the cache again.
    Sleeping,
    /// Waiting for the cached list, read again.
    Rereading,
    /// Waiting for the database page after giving up on the cache.
    FallbackLoad,
    /// Holding the lock; waiting for the database page.
    LockedLoad,
    /// Holding the lock; waiting for the old list to be removed.
    ClearingCache,
    /// Holding the lock; waiting for the new list to be written.
    PushingCache,
    /// Holding the lock; waiting for the new list's lifetime to be set.
    ExpiringCache,
    /// Waiting for the lock to be released.
    Unlocking,
    /// Finished.
    Done,
}

/// A read of a channel's recent messages in progress.
pub struct RecentMessages {
    pub channel_id: String,
    pub limit: i64,
    pub phase: RecentPhase,
    /// Times the cache was read again while waiting.
    pub attempts: u64,
    /// The value that marks the refresh lock as this reader's.
    pub lock_token: String,
    /// The partial list, kept while its gap is loaded.
    pub cached: Vec<Option<RspMessage>>,
    /// The page loaded under the lock, kept until the lock is released.
    pub loaded: Vec<RspMessage>,
}

/// The outcome of the last action, handed back to the read.
pub enum RecentEvent {
    /// The cached list, each entry parsed or not.
    CacheRead(Vec<Option<RspMessage>>),
    /// A page of the database, newest first.
    DbLoaded(Vec<RspMessage>),
    /// Whether the lock was taken by this reader.
    LockReply(bool),
    /// A wait, a removal, a write, a lifetime or a release is done.
    Completed,
    /// The action failed.
    Failed(ServiceError),
}

/// What the caller does next.
pub enum RecentAction {
    /// Read the cached list between two positions, both included.
    ReadCache { key: String, start: i64, stop: i64 },
    /// Load a page of the channel's messages from the database, newest first.
    LoadFromDb { channel_id: String, offset: i64, limit: i64 },
    /// Set the lock key to the token unless it is set, then let it lapse
    /// after the given seconds; answer whether it was set.
    AcquireLock { key: String, token: String, ttl_secs: i64 },
    /// Wait.
    Sleep { millis: u64 },
    /// Remove the cached list.
    ClearCache { key: String },
    /// Append the messages to the cached list.
    PushCache { key: String, messages: Vec<RspMessage> },
    /// Let the cached list lapse after the given seconds.
    ExpireCache { key: String, secs: i64 },
    /// Remove the lock key if it still holds the token.
    ReleaseLock { key: String, token: String },
    /// The read is over.
    Finish(Result<Vec<RspMessage>, ServiceError>),
}

/// The value of a read in progress.
pub struct RecentView {
    pub channel_id: Seq<char>,
    pub limit: i64,
    pub phase: RecentPhase,
    pub attempts: u64,
    pub lock_token: Seq<char>,
    pub cached: Seq<Option<MessageView>>,
    pub loaded: Seq<MessageView>,
}

/// The value of an event.
pub enum RecentEventView {
    CacheRead(Seq<Option<MessageView>>),
    DbLoaded(Seq<MessageView>),
    LockReply(bool),
    Completed,
    Failed(ServiceError),
}

/// The value of an action.
pub enum RecentActionView {
    ReadCache { key: Seq<char>, start: i64, stop: i64 },
    LoadFromDb { channel_id: Seq<char>, offset: i64, limit: i64 },
    AcquireLock { key: Seq<char>, token: Seq<char>, ttl_secs: i64 },
    Sleep { millis: u64 },
    ClearCache { key: Seq<char> },
    PushCache { key: Seq<char>, messages: Seq<MessageView> },
    ExpireCache { key: Seq<char>, secs: i64 },
    ReleaseLock { key: Seq<char>, token: Seq<char> },
    Finish(Result<Seq<MessageView>, ServiceError>),
}

impl View for RecentMessages {
    type V = RecentView;

    open spec fn view(&self) -> RecentView {
        RecentView {
            channel_id: self.channel_id@,
            limit: self.limit,
            phase: self.phase,
            attempts: self.attempts,
            lock_token: self.lock_token@,
            cached: entries_view(self.cached@),
            loaded: messages_view(self.loaded@),
        }
    }
}

impl View for RecentEvent {
    type V = RecentEventView;

    open spec fn view(&self) -> RecentEventView {
        match self {
            RecentEvent::CacheRead(c) => RecentEventView::CacheRead(entries_view(c@)),
            RecentEvent::DbLoaded(d) => RecentEventView::DbLoaded(messages_view(d@)),
            RecentEvent::LockReply(b) => RecentEventView::LockReply(*b),
            RecentEvent::Completed => RecentEventView::Completed,
            RecentEvent::Failed(e) => RecentEventView::Failed(*e),
        }
    }
}

impl View for RecentAction {
    type V = RecentActionView;

    open spec fn view(&self) -> RecentActionView {
        match self {
            RecentAction::ReadCache { key, start, stop } => RecentActionView::ReadCache {
                key: key@,
                start: *start,
                stop: *stop,
            },
            RecentAction::LoadFromDb { channel_id, offset, limit } => RecentActionView::LoadFromDb {
                channel_id: channel_id@,
                offset: *offset,
                limit: *limit,
            },
            RecentAction::AcquireLock { key, token, ttl_secs } => RecentActionView::AcquireLock {
                key: key@,
                token: token@,
                ttl_secs: *ttl_secs,
            },
            RecentAction::Sleep { millis } => RecentActionView::Sleep { millis: *millis },
            RecentAction::ClearCache { key } => RecentActionView::ClearCache { key: key@ },
            RecentAction::PushCache { key, messages } => RecentActionView::PushCache {
                key: key@,
                messages: messages_view(messages@),
            },
            RecentAction::ExpireCache { key, secs } => RecentActionView::ExpireCache {
                key: key@,
                secs: *secs,
            },
            RecentAction::ReleaseLock { key, token } => RecentActionView::ReleaseLock {
                key: key@,
                token: token@,
            },
            RecentAction::Finish(r) => RecentActionView::Finish(
                match r {
                    Ok(m) => Ok(messages_view(m@)),
                    Err(e) => Err(*e),
                },
            ),
        }
    }
}

/// The page sizes a read accepts: one less must be representable, since the
/// cache is read up to that position.
pub open spec fn limit_in_range(limit: i64) -> bool {
    i64::MIN < limit
}

/// A read in progress is well formed: its page size is in range and a
/// waiting reader has retries left.
pub open spec fn recent_wf(s: RecentView) -> bool {
    &&& limit_in_range(s.limit)
    &&& s.attempts <= MAX_CACHE_RETRIES
    &&& (s.phase == RecentPhase::Sleeping || s.phase == RecentPhase::Rereading) ==> s.attempts
        < MAX_CACHE_RETRIES
}

/// The events each phase waits for; a failure may answer any action.
pub open spec fn event_fits(phase: RecentPhase, e: RecentEventView) -> bool {
    phase != RecentPhase::Done && match e {
        RecentEventView::Failed(_) => true,
        RecentEventView::CacheRead(_) => phase == RecentPhase::ReadingCache || phase
            == RecentPhase::Rereading,
        RecentEventView::DbLoaded(_) => phase == RecentPhase::LoadingGap || phase
            == RecentPhase::FallbackLoad || phase == RecentPhase::LockedLoad,
        RecentEventView::LockReply(_) => phase == RecentPhase::Locking,
        RecentEventView::Completed => phase == RecentPhase::Sleeping || phase
            == RecentPhase::ClearingCache || phase == RecentPhase::PushingCache || phase
            == RecentPhase::ExpiringCache || phase == RecentPhase::Unlocking,
    }
}

/// The phases in which this reader holds the refresh lock.
pub open spec fn holds_lock(phase: RecentPhase) -> bool {
    phase == RecentPhase::LockedLoad || phase == RecentPhase::ClearingCache || phase
        == RecentPhase::PushingCache || phase == RecentPhase::ExpiringCache
}

/// The first action of a read.
pub open spec fn recent_first_action(channel_id: Seq<char>, limit: i64) -> RecentActionView {
    RecentActionView::ReadCache {
        key: recent_messages_key_text(channel_id),
        start: 0,
        stop: (limit - 1) as i64,
    }
}

/// The next state and action of a read, given the outcome of its last action.
/// `fresh` is the token taken when this reader asks for the lock.
pub open spec fn recent_next(s: RecentView, e: RecentEventView, fresh: Seq<char>) -> (
    RecentView,
    RecentActionView,
) {
    let key = recent_messages_key_text(s.channel_id);
    let lock_key = recent_messages_lock_key_text(s.channel_id);
    let done = RecentView { phase: RecentPhase::Done, ..s };
    match e {
        RecentEventView::Failed(err) => (done, RecentActionView::Finish(Err(err))),
        RecentEventView::CacheRead(c) => if s.phase == RecentPhase::ReadingCache {
            if c.len() > 0 {
                if c.len() >= s.limit {
                    (done, RecentActionView::Finish(Ok(valid_entries(c))))
                } else {
                    (
                        RecentView { phase: RecentPhase::LoadingGap, cached: c, ..s },
                        RecentActionView::LoadFromDb {
                            channel_id: s.channel_id,
                            offset: (if c.len() - GAP_MARGIN > 0 {
                                c.len() - GAP_MARGIN
                            } else {
                                0
                            }) as i64,
                            limit: gap_page_limit(c.len() as int, s.limit),
                        },
                    )
                }
            } else {
                (
                    RecentView { phase: RecentPhase::Locking, lock_token: fresh, ..s },
                    RecentActionView::AcquireLock {
                        key: lock_key,
                        token: fresh,
                        ttl_secs: LOCK_TTL_SECS,
                    },
                )
            }
        } else {
            if c.len() > 0 {
                (done, RecentActionView::Finish(Ok(entries_or_marker(c))))
            } else if s.attempts + 1 < MAX_CACHE_RETRIES {
                (
                    RecentView {
                        phase: RecentPhase::Sleeping,
                        attempts: (s.attempts + 1) as u64,
                        ..s
                    },
                    RecentActionView::Sleep { millis: RETRY_DELAY_MILLIS },
                )
            } else {
                (
                    RecentView {
                        phase: RecentPhase::FallbackLoad,
                        attempts: (s.attempts + 1) as u64,
                        ..s
                    },
                    RecentActionView::LoadFromDb { channel_id: s.channel_id, offset: 0, limit: s.limit },
                )
            }
        },
        RecentEventView::DbLoaded(d) => if s.phase == RecentPhase::LoadingGap {
            (done, RecentActionView::Finish(Ok(dedup_by_id(d + parsed_entries(s.cached)))))
        } else if s.phase == RecentPhase::FallbackLoad {
            (done, RecentActionView::Finish(Ok(d)))
        } else if d.len() > 0 {
            (
                RecentView { phase: RecentPhase::ClearingCache, loaded: d, ..s },
                RecentActionView::ClearCache { key },
            )
        } else {
            (
                RecentView { phase: RecentPhase::Unlocking, loaded: d, ..s },
                RecentActionView::ReleaseLock { key: lock_key, token: s.lock_token },
            )
        },
        RecentEventView::LockReply(taken) => if taken {
            (
                RecentView { phase: RecentPhase::LockedLoad, ..s },
                RecentActionView::LoadFromDb { channel_id: s.channel_id, offset: 0, limit: s.limit },
            )
        } else {
            (
                RecentView { phase: RecentPhase::Sleeping, attempts: 0, ..s },
                RecentActionView::Sleep { millis: RETRY_DELAY_MILLIS },
            )
        },
        RecentEventView::Completed => if s.phase == RecentPhase::Sleeping {
            (
                RecentView { phase: RecentPhase::Rereading, ..s },
                RecentActionView::ReadCache { key, start: 0, stop: (s.limit - 1) as i64 },
            )
        } else if s.phase == RecentPhase::ClearingCache {
            (
                RecentView { phase: RecentPhase::PushingCache, ..s },
                RecentActionView::PushCache { key, messages: s.loaded },
            )
        } else if s.phase == RecentPhase::PushingCache {
            (
                RecentView { phase: RecentPhase::ExpiringCache, ..s },
                RecentActionView::ExpireCache { key, secs: CACHE_TTL_SECS },
            )
        } else if s.phase == RecentPhase::ExpiringCache {
            (
                RecentView { phase: RecentPhase::Unlocking, ..s },
                RecentActionView::ReleaseLock { key: lock_key, token: s.lock_token },
            )
        } else {
            (done, RecentActionView::Finish(Ok(s.loaded)))
        },
    }
}


/// A measure that every step of a read lowers: a read always finishes.
pub open spec fn recent_rank(s: RecentView) -> nat {
    let left: nat = if s.attempts <= MAX_CACHE_RETRIES {
        (MAX_CACHE_RETRIES - s.attempts) as nat
    } else {
        0
    };
    match s.phase {
        RecentPhase::ReadingCache => 60,
        RecentPhase::Locking => 50,
        RecentPhase::Sleeping => 11 + 2 * left,
        RecentPhase::Rereading => 10 + 2 * left,
        RecentPhase::LockedLoad => 8,
        RecentPhase::ClearingCache => 7,
        RecentPhase::PushingCache => 6,
        RecentPhase::ExpiringCache => 5,
        RecentPhase::Unlocking => 4,
        RecentPhase::LoadingGap => 3,
        RecentPhase::FallbackLoad => 2,
        RecentPhase::Done => 0,
    }
}

/// Every step keeps a read well formed and lowers its measure, so a read
/// reaches [`RecentPhase::Done`] after finitely many actions; a waiting
/// reader reads the cache again at most [`MAX_CACHE_RETRIES`] times.
pub proof fn lemma_recent_read_terminates(s: RecentView, e: RecentEventView, fresh: Seq<char>)
    requires
        recent_wf(s),
        event_fits(s.phase, e),
    ensures
        recent_wf(recent_next(s, e, fresh).0),
        recent_rank(recent_next(s, e, fresh).0) < recent_rank(s),
        recent_next(s, e, fresh).0.phase == RecentPhase::Done <==> recent_next(
            s,
            e,
            fresh,
        ).1 is Finish,
{
}

/// While this reader holds the refresh lock, nothing but a failure ends the
/// read; the lock is given up only by releasing it with the token that took
/// it, and the lock is only ever taken on the cache's answer that it was.
pub proof fn lemma_refresh_lock_is_released(s: RecentView, e: RecentEventView, fresh: Seq<char>)
    requires
        recent_wf(s),
        event_fits(s.phase, e),
    ensures
        holds_lock(s.phase) && !(e is Failed) ==> !(recent_next(s, e, fresh).1 is Finish),
        holds_lock(s.phase) && !(e is Failed) ==> (holds_lock(recent_next(s, e, fresh).0.phase)
            || recent_next(s, e, fresh).0.phase == RecentPhase::Unlocking),
        holds_lock(s.phase) && recent_next(s, e, fresh).0.phase == RecentPhase::Unlocking
            ==> recent_next(s, e, fresh).1 == (RecentActionView::ReleaseLock {
            key: recent_messages_lock_key_text(s.channel_id),
            token: s.lock_token,
        }),
        !holds_lock(s.phase) && holds_lock(recent_next(s, e, fresh).0.phase) ==> s.phase
            == RecentPhase::Locking && e == RecentEventView::LockReply(true),
        s.phase != RecentPhase::ReadingCache ==> recent_next(s, e, fresh).0.lock_token
            == s.lock_token,
{
}

/// A page put together from a partial cache and the database never shows a
/// message id twice.
pub proof fn lemma_merged_page_has_unique_ids(s: RecentView, d: Seq<MessageView>, fresh: Seq<char>)
    requires
        s.phase == RecentPhase::LoadingGap,
    ensures
        recent_next(s, RecentEventView::DbLoaded(d), fresh).1 matches RecentActionView::Finish(
            Ok(page),
        ) && ids(page).no_duplicates(),
{
    lemma_dedup_has_unique_ids(d + parsed_entries(s.cached));
}

/// A read completed from the database after a partial cache hit loses
/// nothing: every message of the database page and every parsed cached
/// message has its id in the page returned; the page holds only those
/// messages; and when the database page has distinct ids, the page starts
/// with it, in its order.
pub proof fn lemma_merged_page_keeps_loaded_and_cached(
    s: RecentView,
    d: Seq<MessageView>,
    fresh: Seq<char>,
)
    requires
        s.phase == RecentPhase::LoadingGap,
    ensures
        recent_next(s, RecentEventView::DbLoaded(d), fresh).1 matches RecentActionView::Finish(
            Ok(page),
        ) && (forall|k: int| 0 <= k < d.len() ==> ids(page).contains(#[trigger] d[k].id)) && (
        forall|i: int|
            0 <= i < s.cached.len() && (#[trigger] s.cached[i]) is Some ==> ids(page).contains(
                s.cached[i]->Some_0.id,
            )) && (forall|k: int|
            0 <= k < page.len() ==> d.contains(#[trigger] page[k]) || exists|i: int|
                0 <= i < s.cached.len() && s.cached[i] == Some(page[k])) && (ids(d).no_duplicates()
            ==> page.take(d.len() as int) == d),
{
    let c = parsed_entries(s.cached);
    let all = d + c;
    let page = dedup_by_id(all);
    lemma_parsed_entries_are_the_parsed_messages(s.cached);
    lemma_dedup_keeps_only_given_messages(all);
    assert forall|k: int| 0 <= k < d.len() implies ids(page).contains(#[trigger] d[k].id) by {
        assert(ids(all)[k] == d[k].id);
        lemma_dedup_keeps_ids(all, d[k].id);
    }
    assert forall|i: int| 0 <= i < s.cached.len() && (#[trigger] s.cached[i]) is Some implies ids(
        page,
    ).contains(s.cached[i]->Some_0.id) by {
        let m = s.cached[i]->Some_0;
        let j = choose|j: int| 0 <= j < c.len() && c[j] == m;
        assert(all[d.len() + j] == m);
        assert(ids(all)[d.len() + j] == m.id);
        lemma_dedup_keeps_ids(all, m.id);
    }
    assert forall|k: int| 0 <= k < page.len() implies d.contains(#[trigger] page[k]) || exists|i: int|
        0 <= i < s.cached.len() && s.cached[i] == Some(page[k]) by {
        assert(all.contains(page[k]));
        let j = choose|j: int| 0 <= j < all.len() && all[j] == page[k];
        if j < d.len() {
            assert(d[j] == page[k]);
        } else {
            assert(c[j - d.len()] == page[k]);
        }
    }
    if ids(d).no_duplicates() {
        lemma_dedup_extends(d, c);
        lemma_dedup_of_distinct_ids(d);
    }
}

/// Rebuilding the cache under the lock writes back exactly the page loaded
/// from the database, in its order, then sets its lifetime, releases the
/// lock with this reader's token and answers with that same page.
pub proof fn lemma_rebuild_writes_and_returns_the_loaded_page(
    s: RecentView,
    d: Seq<MessageView>,
    fresh: Seq<char>,
)
    requires
        s.phase == RecentPhase::LockedLoad,
        d.len() > 0,
    ensures
        ({
            let (s1, a1) = recent_next(s, RecentEventView::DbLoaded(d), fresh);
            let (s2, a2) = recent_next(s1, RecentEventView::Completed, fresh);
            let (s3, a3) = recent_next(s2, RecentEventView::Completed, fresh);
            let (s4, a4) = recent_next(s3, RecentEventView::Completed, fresh);
            let (s5, a5) = recent_next(s4, RecentEventView::Completed, fresh);
            &&& a1 == RecentActionView::ClearCache { key: recent_messages_key_text(s.channel_id) }
            &&& a2 == RecentActionView::PushCache {
                key: recent_messages_key_text(s.channel_id),
                messages: d,
            }
            &&& a3 == RecentActionView::ExpireCache {
                key: recent_messages_key_text(s.channel_id),
                secs: CACHE_TTL_SECS,
            }
            &&& a4 == RecentActionView::ReleaseLock {
                key: recent_messages_lock_key_text(s.channel_id),
                token: s.lock_token,
            }
            &&& a5 == RecentActionView::Finish(Ok(d))
            &&& s5.phase == RecentPhase::Done
        }),
{
}

/// A waiting reader that gives up on the cache reads the first page of the
/// database and answers with exactly that page, in its order.
pub proof fn lemma_fallback_returns_the_database_page(
    s: RecentView,
    d: Seq<MessageView>,
    fresh: Seq<char>,
)
    requires
        s.phase == RecentPhase::Rereading,
        s.attempts + 1 == MAX_CACHE_RETRIES,
    ensures
        ({
            let (s1, a1) = recent_next(s, RecentEventView::CacheRead(Seq::empty()), fresh);
            let (s2, a2) = recent_next(s1, RecentEventView::DbLoaded(d), fresh);
            &&& a1 == RecentActionView::LoadFromDb { channel_id: s.channel_id, offset: 0, limit: s.limit }
            &&& a2 == RecentActionView::Finish(Ok(d))
        }),
        forall|t: RecentView|
            t.phase == RecentPhase::FallbackLoad ==> recent_next(t, RecentEventView::DbLoaded(d), fresh).1
                == RecentActionView::Finish(Ok(d)),
{
}

/// A message at the head of the cached list is what a read of the newest
/// message gives back: with a page of one, a cached entry that parses to a
/// message with an id is returned as the page.
pub proof fn lemma_newest_cached_message_is_read(s: RecentView, m: MessageView, fresh: Seq<char>)
    requires
        s.phase == RecentPhase::ReadingCache,
        s.limit == 1,
        m.id.len() > 0,
    ensures
        recent_next(s, RecentEventView::CacheRead(seq![Some(m)]), fresh).1 == RecentActionView::Finish(
            Ok(seq![m]),
        ),
{
    let c: Seq<Option<MessageView>> = seq![Some(m)];
    assert(c.drop_last() =~= Seq::<Option<MessageView>>::empty());
    assert(valid_entries(c.drop_last()) =~= Seq::<MessageView>::empty());
    assert(valid_entries(c) =~= seq![m]);
}

impl RecentMessages {
    /// Starts a read of up to `limit` recent messages of a channel.
    pub fn start(channel_id: String, limit: i64) -> (res: (RecentMessages, RecentAction))
        requires
            limit_in_range(limit),
        ensures
            recent_wf(res.0@),
            res.0@.phase == RecentPhase::ReadingCache,
            res.0@.channel_id == channel_id@,
            res.0@.limit == limit,
            res.1@ == recent_first_action(channel_id@, limit),
    {
        let key = recent_messages_key(channel_id.as_str());
        let state = RecentMessages {
            channel_id,
            limit,
            phase: RecentPhase::ReadingCache,
            attempts: 0,
            lock_token: String::new(),
            cached: Vec::new(),
            loaded: Vec::new(),
        };
        (state, RecentAction::ReadCache { key, start: 0, stop: limit - 1 })
    }

    /// Takes the outcome of the last action and returns the next state and
    /// action.
    pub fn step(self, event: RecentEvent) -> (res: (RecentMessages, RecentAction))
        requires
            recent_wf(self@),
            event_fits(self@.phase, event@),
        ensures
            recent_wf(res.0@),
            (res.0@, res.1@) == recent_next(self@, event@, res.0@.lock_token),
            res.1@ is AcquireLock ==> is_v7_uuid(res.0@.lock_token),
    {
        let ghost s = self@;
        let RecentMessages { channel_id, limit, phase, attempts, lock_token, cached, loaded } = self;
        let key = recent_messages_key(channel_id.as_str());
        let lock_key = recent_messages_lock_key(channel_id.as_str());
        match event {
            RecentEvent::Failed(err) => {
                let next = RecentMessages {
                    channel_id,
                    limit,
                    phase: RecentPhase::Done,
                    attempts,
                    lock_token,
                    cached,
                    loaded,
                };
                (next, RecentAction::Finish(Err(err)))
            },
            RecentEvent::CacheRead(entries) => {
                if phase == RecentPhase::ReadingCache {
                    let n = entries.len();
                    if n > 0 {
                        if limit <= 0 || n as u64 >= limit as u64 {
                            let page = cached_page(&entries);
                            let next = RecentMessages {
                                channel_id,
                                limit,
                                phase: RecentPhase::Done,
                                attempts,
                                lock_token,
                                cached,
                                loaded,
                            };
                            (next, RecentAction::Finish(Ok(page)))
                        } else {
                            let (offset, gap_limit) = gap_window(n, limit);
                            let action = RecentAction::LoadFromDb {
                                channel_id: channel_id.clone(),
                                offset,
                                limit: gap_limit,
                            };
                            let next = RecentMessages {
                                channel_id,
                                limit,
                                phase: RecentPhase::LoadingGap,
                                attempts,
                                lock_token,
                                cached: entries,
                                loaded,
                            };
                            (next, action)
                        }
                    } else {
                        let token = generate_id();
                        let action = RecentAction::AcquireLock {
                            key: lock_key,
                            token: token.clone(),
                            ttl_secs: LOCK_TTL_SECS,
                        };
                        let next = RecentMessages {
                            channel_id,
                            limit,
                            phase: RecentPhase::Locking,
                            attempts,
                            lock_token: token,
                            cached,
                            loaded,
                        };
                        (next, action)
                    }
                } else {
                    if entries.len() > 0 {
                        let page = cached_page_with_markers(&entries);
                        let next = RecentMessages {
                            channel_id,
                            limit,
                            phase: RecentPhase::Done,
                            attempts,
                            lock_token,
                            cached,
                            loaded,
                        };
                        (next, RecentAction::Finish(Ok(page)))
                    } else if attempts + 1 < MAX_CACHE_RETRIES {
                        let next = RecentMessages {
                            channel_id,
                            limit,
                            phase: RecentPhase::Sleeping,
                            attempts: attempts + 1,
                            lock_token,
                            cached,
                            loaded,
                        };
                        (next, RecentAction::Sleep { millis: RETRY_DELAY_MILLIS })
                    } else {
                        let action = RecentAction::LoadFromDb {
                            channel_id: channel_id.clone(),
                            offset: 0,
                            limit,
                        };
                        let next = RecentMessages {
                            channel_id,
                            limit,
                            phase: RecentPhase::FallbackLoad,
                            attempts: attempts + 1,
                            lock_token,
                            cached,
                            loaded,
                        };
                        (next, action)
                    }
                }
            },
            RecentEvent::DbLoaded(page) => {
                if phase == RecentPhase::LoadingGap {
                    let merged = merge_recent_messages(&page, &cached);
                    let next = RecentMessages {
                        channel_id,
                        limit,
                        phase: RecentPhase::Done,
                        attempts,
                        lock_token,
                        cached,
                        loaded,
                    };
                    (next, RecentAction::Finish(Ok(merged)))
                } else if phase == RecentPhase::FallbackLoad {
                    let next = RecentMessages {
                        channel_id,
                        limit,
                        phase: RecentPhase::Done,
                        attempts,
                        lock_token,
                        cached,
                        loaded,
                    };
                    (next, RecentAction::Finish(Ok(page)))
                } else if page.len() > 0 {
                    let next = RecentMessages {
                        channel_id,
                        limit,
                        phase: RecentPhase::ClearingCache,
                        attempts,
                        lock_token,
                        cached,
                        loaded: page,
                    };
                    (next, RecentAction::ClearCache { key })
                } else {
                    let action = RecentAction::ReleaseLock { key: lock_key, token: lock_token.clone() };
                    let next = RecentMessages {
                        channel_id,
                        limit,
                        phase: RecentPhase::Unlocking,
                        attempts,
                        lock_token,
                        cached,
                        loaded: page,
                    };
                    (next, action)
                }
            },
            RecentEvent::LockReply(taken) => {
                if taken {
                    let action = RecentAction::LoadFromDb {
                        channel_id: channel_id.clone(),
                        offset: 0,
                        limit,
                    };
                    let next = RecentMessages {
                        channel_id,
                        limit,
                        phase: RecentPhase::LockedLoad,
                        attempts,
                        lock_token,
                        cached,
                        loaded,
                    };
                    (next, action)
                } else {
                    let next = RecentMessages {
                        channel_id,
                        limit,
                        phase: RecentPhase::Sleeping,
                        attempts: 0,
                        lock_token,
                        cached,
                        loaded,
                    };
                    (next, RecentAction::Sleep { millis: RETRY_DELAY_MILLIS })
                }
            },
            RecentEvent::Completed => {
                if phase == RecentPhase::Sleeping {
                    let next = RecentMessages {
                        channel_id,
                        limit,
                        phase: RecentPhase::Rereading,
                        attempts,
                        lock_token,
                        cached,
                        loaded,
                    };
                    (next, RecentAction::ReadCache { key, start: 0, stop: limit - 1 })
                } else if phase == RecentPhase::ClearingCache {
                    let messages = copy_messages(&loaded);
                    let next = RecentMessages {
                        channel_id,
                        limit,
                        phase: RecentPhase::PushingCache,
                        attempts,
                        lock_token,
                        cached,
                        loaded,
                    };
                    (next, RecentAction::PushCache { key, messages })
                } else if phase == RecentPhase::PushingCache {
                    let next = RecentMessages {
                        channel_id,
                        limit,
                        phase: RecentPhase::ExpiringCache,
                        attempts,
                        lock_token,
                        cached,
                        loaded,
                    };
                    (next, RecentAction::ExpireCache { key, secs: CACHE_TTL_SECS })
                } else if phase == RecentPhase::ExpiringCache {
                    let action = RecentAction::ReleaseLock { key: lock_key, token: lock_token.clone() };
                    let next = RecentMessages {
                        channel_id,
                        limit,
                        phase: RecentPhase::Unlocking,
                        attempts,
                        lock_token,
                        cached,
                        loaded,
                    };
                    (next, action)
                } else {
                    let result = copy_messages(&loaded);
                    let next = RecentMessages {
                        channel_id,
                        limit,
                        phase: RecentPhase::Done,
                        attempts,
                        lock_token,
                        cached,
                        loaded,
                    };
                    (next, RecentAction::Finish(Ok(result)))
                }
            },
        }
    }
}

} // verus!
