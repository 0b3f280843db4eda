//! Messages: cache keys, and how the recent messages of a channel are put
//! together from the cache and the database.

use vstd::prelude::*;

use crate::dto::{MessageView, RspMessage};
use crate::model::{MessageInfo, NewMessage};
use crate::service::PushEvent;
use crate::srv::notify::dto::ReqSendMessage;
use crate::util::{generate_id, is_hyphenated_uuid};
use crate::text::concat3;

verus! {

/// Number of extra messages read around the cached ones when the cache holds
/// fewer than were asked for.
pub const GAP_MARGIN: i64 = 10;

/// The values of a sequence of messages.
pub open spec fn messages_view(s: Seq<RspMessage>) -> Seq<MessageView> {
    s.map_values(|m: RspMessage| m@)
}

/// The values of a sequence of cache entries, each parsed or not.
pub open spec fn entries_view(s: Seq<Option<RspMessage>>) -> Seq<Option<MessageView>> {
    s.map_values(|e: Option<RspMessage>| match e {
        Some(m) => Some(m@),
        None => None,
    })
}

/// The ids of a sequence of messages.
pub open spec fn ids(s: Seq<MessageView>) -> Seq<Seq<char>> {
    s.map_values(|m: MessageView| m.id)
}

/// The messages of `s`, each id kept at its first occurrence only.
pub open spec fn dedup_by_id(s: Seq<MessageView>) -> Seq<MessageView>
    decreases s.len(),
{
    if s.len() == 0 {
        Seq::empty()
    } else {
        let rest = dedup_by_id(s.drop_last());
        if ids(s.drop_last()).contains(s.last().id) {
            rest
        } else {
            rest.push(s.last())
        }
    }
}

/// The messages that were parsed, in order.
pub open spec fn parsed_entries(s: Seq<Option<MessageView>>) -> Seq<MessageView>
    decreases s.len(),
{
    if s.len() == 0 {
        Seq::empty()
    } else {
        let rest = parsed_entries(s.drop_last());
        match s.last() {
            Some(m) => rest.push(m),
            None => rest,
        }
    }
}

/// The messages that were parsed and have a non-empty id, in order.
pub open spec fn valid_entries(s: Seq<Option<MessageView>>) -> Seq<MessageView>
    decreases s.len(),
{
    if s.len() == 0 {
        Seq::empty()
    } else {
        let rest = valid_entries(s.drop_last());
        match s.last() {
            Some(m) => if m.id.len() > 0 {
                rest.push(m)
            } else {
                rest
            },
            None => rest,
        }
    }
}

/// The message that stands for a cache entry that could not be parsed, when
/// the cache was read again after waiting for another refresh.
pub open spec fn corrupted_message() -> MessageView {
    MessageView {
        id: Seq::empty(),
        channel_id: Seq::empty(),
        sender_id: Seq::empty(),
        content: "Corrupted message"@,
        created_at: Seq::empty(),
    }
}

/// Each entry's message, or the corrupted-message marker where it could not
/// be parsed.
pub open spec fn entries_or_marker(s: Seq<Option<MessageView>>) -> Seq<MessageView> {
    s.map_values(|e: Option<MessageView>| match e {
        Some(m) => m,
        None => corrupted_message(),
    })
}

/// The cache key of a channel's recent messages.
pub open spec fn recent_messages_key_text(channel_id: Seq<char>) -> Seq<char> {
    "channel:"@ + channel_id + ":recent_messages"@
}

/// The cache key of the lock that guards a refresh of a channel's recent
/// messages.
pub open spec fn recent_messages_lock_key_text(channel_id: Seq<char>) -> Seq<char> {
    "lock:channel:"@ + channel_id + ":recent_messages"@
}

/// The cache key of a channel's recent messages.
pub fn recent_messages_key(channel_id: &str) -> (res: String)
    ensures
        res@ == recent_messages_key_text(channel_id@),
{
    concat3("channel:", channel_id, ":recent_messages")
}

/// The cache key of the lock that guards a refresh of a channel's recent
/// messages.
pub fn recent_messages_lock_key(channel_id: &str) -> (res: String)
    ensures
        res@ == recent_messages_lock_key_text(channel_id@),
{
    concat3("lock:channel:", channel_id, ":recent_messages")
}

proof fn lemma_ids_push(s: Seq<MessageView>, m: MessageView)
    ensures
        ids(s.push(m)) == ids(s).push(m.id),
{
    assert(ids(s.push(m)) =~= ids(s).push(m.id));
}

proof fn lemma_drop_last_push(s: Seq<MessageView>)
    requires
        s.len() > 0,
    ensures
        s.drop_last().push(s.last()) == s,
{
    assert(s.drop_last().push(s.last()) =~= s);
}

proof fn lemma_push_contains(a: Seq<Seq<char>>, y: Seq<char>, x: Seq<char>)
    ensures
        a.push(y).contains(x) <==> (a.contains(x) || x == y),
{
    if a.push(y).contains(x) {
        let j = choose|j: int| 0 <= j < a.push(y).len() && a.push(y)[j] == x;
        if j < a.len() {
            assert(a[j] == x);
        }
    }
    if a.contains(x) {
        let j = choose|j: int| 0 <= j < a.len() && a[j] == x;
        assert(a.push(y)[j] == x);
    }
    if x == y {
        assert(a.push(y)[a.len() as int] == x);
    }
}

/// An id occurs among the deduplicated messages exactly when it occurs among
/// the messages.
pub proof fn lemma_dedup_keeps_ids(s: Seq<MessageView>, x: Seq<char>)
    ensures
        ids(dedup_by_id(s)).contains(x) <==> ids(s).contains(x),
    decreases s.len(),
{
    if s.len() == 0 {
        assert(ids(s).len() == 0);
        assert(ids(dedup_by_id(s)).len() == 0);
    } else {
        let p = s.drop_last();
        let y = s.last().id;
        lemma_dedup_keeps_ids(p, x);
        lemma_drop_last_push(s);
        lemma_ids_push(p, s.last());
        lemma_push_contains(ids(p), y, x);
        if !ids(p).contains(y) {
            lemma_ids_push(dedup_by_id(p), s.last());
            lemma_push_contains(ids(dedup_by_id(p)), y, x);
        }
    }
}

/// No id occurs twice among the deduplicated messages.
pub proof fn lemma_dedup_has_unique_ids(s: Seq<MessageView>)
    ensures
        ids(dedup_by_id(s)).no_duplicates(),
    decreases s.len(),
{
    if s.len() > 0 {
        let p = s.drop_last();
        lemma_dedup_has_unique_ids(p);
        if !ids(p).contains(s.last().id) {
            let d = dedup_by_id(p);
            lemma_ids_push(d, s.last());
            lemma_dedup_keeps_ids(p, s.last().id);
            assert forall|i: int, j: int|
                0 <= i < ids(d.push(s.last())).len() && 0 <= j < ids(d.push(s.last())).len() && i
                    != j implies ids(d.push(s.last()))[i] != ids(d.push(s.last()))[j] by {
                if i < d.len() && j < d.len() {
                } else if i < d.len() {
                    assert(ids(d)[i] == ids(d.push(s.last()))[i]);
                } else if j < d.len() {
                    assert(ids(d)[j] == ids(d.push(s.last()))[j]);
                }
            }
        }
    }
}

/// Every message kept by deduplication is one of the messages.
pub proof fn lemma_dedup_keeps_only_given_messages(s: Seq<MessageView>)
    ensures
        forall|k: int| 0 <= k < dedup_by_id(s).len() ==> s.contains(#[trigger] dedup_by_id(s)[k]),
    decreases s.len(),
{
    if s.len() > 0 {
        let p = s.drop_last();
        lemma_dedup_keeps_only_given_messages(p);
        let d = dedup_by_id(s);
        assert forall|k: int| 0 <= k < d.len() implies s.contains(#[trigger] d[k]) by {
            if k < dedup_by_id(p).len() {
                assert(d[k] == dedup_by_id(p)[k]);
                assert(p.contains(d[k]));
                let j = choose|j: int| 0 <= j < p.len() && p[j] == d[k];
                assert(s[j] == d[k]);
            } else {
                assert(d[k] == s.last());
                assert(s[s.len() - 1] == d[k]);
            }
        }
    }
}

/// Deduplicating a longer sequence keeps, at its start, what deduplicating
/// its first part gives.
pub proof fn lemma_dedup_extends(a: Seq<MessageView>, b: Seq<MessageView>)
    ensures
        dedup_by_id(a).len() <= dedup_by_id(a + b).len(),
        dedup_by_id(a + b).take(dedup_by_id(a).len() as int) == dedup_by_id(a),
    decreases b.len(),
{
    if b.len() == 0 {
        assert(a + b =~= a);
        assert(dedup_by_id(a).take(dedup_by_id(a).len() as int) =~= dedup_by_id(a));
    } else {
        let b1 = b.drop_last();
        lemma_dedup_extends(a, b1);
        assert((a + b).drop_last() =~= a + b1);
        assert((a + b).last() == b.last());
        let n = dedup_by_id(a).len() as int;
        let r = dedup_by_id(a + b1);
        if !ids(a + b1).contains(b.last().id) {
            assert(r.push(b.last()).take(n) =~= r.take(n));
        }
    }
}

/// Deduplication leaves a sequence whose ids are already distinct as it is.
pub proof fn lemma_dedup_of_distinct_ids(s: Seq<MessageView>)
    requires
        ids(s).no_duplicates(),
    ensures
        dedup_by_id(s) == s,
    decreases s.len(),
{
    if s.len() > 0 {
        let p = s.drop_last();
        assert forall|i: int, j: int| 0 <= i < ids(p).len() && 0 <= j < ids(p).len() && i != j
            implies ids(p)[i] != ids(p)[j] by {
            assert(ids(p)[i] == ids(s)[i]);
            assert(ids(p)[j] == ids(s)[j]);
        }
        lemma_dedup_of_distinct_ids(p);
        if ids(p).contains(s.last().id) {
            let k = choose|k: int| 0 <= k < ids(p).len() && ids(p)[k] == s.last().id;
            assert(ids(s)[k] == ids(s)[s.len() - 1]);
        }
        lemma_drop_last_push(s);
    }
}

/// A parsed cache entry's message is among the parsed messages, and every
/// parsed message comes from a parsed entry.
pub proof fn lemma_parsed_entries_are_the_parsed_messages(c: Seq<Option<MessageView>>)
    ensures
        forall|i: int| 0 <= i < c.len() && (#[trigger] c[i]) is Some ==> parsed_entries(c).contains(
            c[i]->Some_0,
        ),
        forall|k: int|
            0 <= k < parsed_entries(c).len() ==> exists|i: int|
                0 <= i < c.len() && c[i] == Some(#[trigger] parsed_entries(c)[k]),
    decreases c.len(),
{
    if c.len() > 0 {
        let p = c.drop_last();
        lemma_parsed_entries_are_the_parsed_messages(p);
        let r = parsed_entries(p);
        let q = parsed_entries(c);
        assert forall|i: int| 0 <= i < c.len() && (#[trigger] c[i]) is Some implies q.contains(
            c[i]->Some_0,
        ) by {
            if i < c.len() - 1 {
                assert(p[i] == c[i]);
                let j = choose|j: int| 0 <= j < r.len() && r[j] == c[i]->Some_0;
                assert(q[j] == r[j]);
            } else {
                assert(q[q.len() - 1] == c[i]->Some_0);
            }
        }
        assert forall|k: int| 0 <= k < q.len() implies exists|i: int|
            0 <= i < c.len() && c[i] == Some(#[trigger] q[k]) by {
            if k < r.len() {
                assert(q[k] == r[k]);
                let i = choose|i: int| 0 <= i < p.len() && p[i] == Some(r[k]);
                assert(c[i] == p[i]);
            } else {
                assert(c[c.len() - 1] == Some(q[k]));
            }
        }
    }
}

/// Whether a list of strings holds a string with the value of `x`.
pub fn contains_text(v: &Vec<String>, x: &String) -> (res: bool)
    ensures
        res == v@.map_values(|t: String| t@).contains(x@),
{
    let ghost vs = v@.map_values(|t: String| t@);
    let mut i: usize = 0;
    while i < v.len()
        invariant
            i <= v.len(),
            vs == v@.map_values(|t: String| t@),
            forall|j: int| 0 <= j < i ==> vs[j] != x@,
        decreases v.len() - i,
    {
        if v[i] == *x {
            assert(vs[i as int] == x@);
            return true;
        }
        i = i + 1;
    }
    proof {
        if vs.contains(x@) {
            let j = choose|j: int| 0 <= j < vs.len() && vs[j] == x@;
            assert(vs[j] != x@);
        }
    }
    false
}

/// The messages with each id kept at its first occurrence only.
pub fn dedup_messages(msgs: &Vec<RspMessage>) -> (res: Vec<RspMessage>)
    ensures
        messages_view(res@) == dedup_by_id(messages_view(msgs@)),
{
    let ghost s = messages_view(msgs@);
    let mut out: Vec<RspMessage> = Vec::new();
    let mut seen: Vec<String> = Vec::new();
    let mut i: usize = 0;
    assert(s.take(0) =~= Seq::<MessageView>::empty());
    assert(messages_view(out@) =~= dedup_by_id(s.take(0)));
    assert(seen@.map_values(|t: String| t@) =~= ids(dedup_by_id(s.take(0))));
    while i < msgs.len()
        invariant
            i <= msgs.len(),
            s == messages_view(msgs@),
            messages_view(out@) == dedup_by_id(s.take(i as int)),
            seen@.map_values(|t: String| t@) == ids(dedup_by_id(s.take(i as int))),
        decreases msgs.len() - i,
    {
        let m = &msgs[i];
        let ghost t = s.take(i as int);
        let ghost t1 = s.take(i + 1);
        proof {
            assert(t1.drop_last() =~= t);
            assert(t1.last() == m@);
            lemma_dedup_keeps_ids(t, m@.id);
        }
        if !contains_text(&seen, &m.id) {
            let ghost old_out = out@;
            let ghost old_seen = seen@;
            seen.push(m.id.clone());
            out.push(m.copy());
            proof {
                assert(messages_view(out@) =~= messages_view(old_out).push(m@));
                assert(seen@.map_values(|t: String| t@) =~= old_seen.map_values(|t: String| t@).push(m@.id));
                lemma_ids_push(dedup_by_id(t), m@);
            }
        }
        i = i + 1;
    }
    assert(s.take(msgs.len() as int) =~= s);
    out
}


/// The cached messages returned when the cache holds a full page: entries
/// that could not be parsed, and messages without an id, are left out.
pub fn cached_page(cached: &Vec<Option<RspMessage>>) -> (res: Vec<RspMessage>)
    ensures
        messages_view(res@) == valid_entries(entries_view(cached@)),
{
    let ghost s = entries_view(cached@);
    let mut out: Vec<RspMessage> = Vec::new();
    let mut i: usize = 0;
    assert(messages_view(out@) =~= valid_entries(s.take(0)));
    while i < cached.len()
        invariant
            i <= cached.len(),
            s == entries_view(cached@),
            messages_view(out@) == valid_entries(s.take(i as int)),
        decreases cached.len() - i,
    {
        proof {
            assert(s.take(i + 1).drop_last() =~= s.take(i as int));
        }
        let ghost old_out = out@;
        match &cached[i] {
            Some(m) => {
                if !m.id.as_str().is_empty() {
                    out.push(m.copy());
                    assert(messages_view(out@) =~= messages_view(old_out).push(m@));
                }
            },
            None => {},
        }
        i = i + 1;
    }
    assert(s.take(cached.len() as int) =~= s);
    out
}

/// The cached messages returned after waiting for another refresh: entries
/// that could not be parsed are shown as the corrupted-message marker.
pub fn cached_page_with_markers(cached: &Vec<Option<RspMessage>>) -> (res: Vec<RspMessage>)
    ensures
        messages_view(res@) == entries_or_marker(entries_view(cached@)),
{
    let ghost s = entries_view(cached@);
    let mut out: Vec<RspMessage> = Vec::new();
    let mut i: usize = 0;
    while i < cached.len()
        invariant
            i <= cached.len(),
            s == entries_view(cached@),
            messages_view(out@) == entries_or_marker(s).take(i as int),
        decreases cached.len() - i,
    {
        let ghost old_out = out@;
        assert(s[i as int] == match cached@[i as int] {
            Some(m) => Some(m@),
            None => None::<MessageView>,
        });
        match &cached[i] {
            Some(m) => {
                out.push(m.copy());
            },
            None => {
                out.push(
                    RspMessage {
                        id: String::new(),
                        channel_id: String::new(),
                        sender_id: String::new(),
                        content: "Corrupted message".to_owned(),
                        created_at: String::new(),
                    },
                );
            },
        }
        assert(messages_view(out@) =~= messages_view(old_out).push(out@[i as int]@));
        assert(messages_view(out@) =~= entries_or_marker(s).take(i + 1));
        i = i + 1;
    }
    assert(entries_or_marker(s).take(cached.len() as int) =~= entries_or_marker(s));
    out
}

/// The messages loaded from the database followed by the cached messages
/// that could be parsed, each id kept at its first occurrence only.
pub fn merge_recent_messages(db: &Vec<RspMessage>, cached: &Vec<Option<RspMessage>>) -> (res: Vec<
    RspMessage,
>)
    ensures
        messages_view(res@) == dedup_by_id(
            messages_view(db@) + parsed_entries(entries_view(cached@)),
        ),
{
    let ghost s = entries_view(cached@);
    let mut all: Vec<RspMessage> = Vec::new();
    let mut k: usize = 0;
    while k < db.len()
        invariant
            k <= db.len(),
            messages_view(all@) == messages_view(db@).take(k as int),
        decreases db.len() - k,
    {
        let ghost old_all = all@;
        let c = db[k].copy();
        all.push(c);
        assert(messages_view(db@)[k as int] == db@[k as int]@);
        assert(messages_view(all@) =~= messages_view(old_all).push(c@));
        assert(messages_view(all@) =~= messages_view(db@).take(k + 1));
        k = k + 1;
    }
    assert(messages_view(db@).take(db.len() as int) =~= messages_view(db@));
    let mut i: usize = 0;
    assert(messages_view(all@) =~= messages_view(db@) + parsed_entries(s.take(0)));
    while i < cached.len()
        invariant
            i <= cached.len(),
            s == entries_view(cached@),
            messages_view(all@) == messages_view(db@) + parsed_entries(s.take(i as int)),
        decreases cached.len() - i,
    {
        proof {
            assert(s.take(i + 1).drop_last() =~= s.take(i as int));
        }
        let ghost old_all = all@;
        match &cached[i] {
            Some(m) => {
                all.push(m.copy());
                assert(messages_view(all@) =~= messages_view(old_all).push(m@));
                assert(messages_view(db@) + parsed_entries(s.take(i as int)).push(m@) =~= (
                messages_view(db@) + parsed_entries(s.take(i as int))).push(m@));
            },
            None => {},
        }
        i = i + 1;
    }
    assert(s.take(cached.len() as int) =~= s);
    dedup_messages(&all)
}

/// The number of messages read from the database when the cache holds
/// `cached_len` of the `limit` asked for: a margin more than is missing, held
/// at the largest `i64`.
pub open spec fn gap_page_limit(cached_len: int, limit: i64) -> i64 {
    if limit - cached_len + GAP_MARGIN <= i64::MAX {
        (limit - cached_len + GAP_MARGIN) as i64
    } else {
        i64::MAX
    }
}

/// The page of the database read when the cache holds only part of the
/// messages asked for: it starts a margin before the cached count and asks
/// for a margin more than is missing.
pub fn gap_window(cached_len: usize, limit: i64) -> (res: (i64, i64))
    requires
        0 < cached_len < limit,
    ensures
        res.0 == (if cached_len - GAP_MARGIN > 0 { cached_len - GAP_MARGIN } else { 0 }),
        res.1 == gap_page_limit(cached_len as int, limit),
{
    let n = cached_len as i64;
    let offset = if n - GAP_MARGIN > 0 { n - GAP_MARGIN } else { 0 };
    let missing = limit - n;
    let page = if missing <= i64::MAX - GAP_MARGIN { missing + GAP_MARGIN } else { i64::MAX };
    (offset, page)
}


/// A copy of a list of messages, with the same values.
pub fn copy_messages(v: &Vec<RspMessage>) -> (res: Vec<RspMessage>)
    ensures
        messages_view(res@) == messages_view(v@),
{
    let mut out: Vec<RspMessage> = Vec::new();
    let mut i: usize = 0;
    while i < v.len()
        invariant
            i <= v.len(),
            messages_view(out@) == messages_view(v@).take(i as int),
        decreases v.len() - i,
    {
        let ghost before = out@;
        let c = v[i].copy();
        out.push(c);
        assert(messages_view(v@)[i as int] == v@[i as int]@);
        assert(messages_view(out@) =~= messages_view(before).push(c@));
        assert(messages_view(out@) =~= messages_view(v@).take(i + 1));
        i = i + 1;
    }
    assert(messages_view(v@).take(v.len() as int) =~= messages_view(v@));
    out
}


/// The row of a message sent now: a fresh id, the request's channel, sender
/// and content, and the time it was sent.
pub fn new_message(req: ReqSendMessage, created_at: String) -> (res: NewMessage)
    ensures
        is_hyphenated_uuid(res.id@),
        res.channel_id@ == req.channel_id@,
        res.sender_id@ == req.sender_id@,
        res.content@ == req.content@,
        res.created_at@ == created_at@,
{
    let id = generate_id();
    NewMessage {
        id,
        channel_id: req.channel_id,
        sender_id: req.sender_id,
        content: req.content,
        created_at,
    }
}

/// A new message as shown to clients and as pushed onto the channel's
/// recent-messages list.
pub fn new_message_to_rsp(msg: &NewMessage) -> (res: RspMessage)
    ensures
        res.id@ == msg.id@,
        res.channel_id@ == msg.channel_id@,
        res.sender_id@ == msg.sender_id@,
        res.content@ == msg.content@,
        res.created_at@ == msg.created_at@,
{
    RspMessage {
        id: msg.id.clone(),
        channel_id: msg.channel_id.clone(),
        sender_id: msg.sender_id.clone(),
        content: msg.content.clone(),
        created_at: msg.created_at.clone(),
    }
}

/// A stored message as shown to clients.
pub fn message_info_to_rsp(msg: MessageInfo) -> (res: RspMessage)
    ensures
        res.id@ == msg.id@,
        res.channel_id@ == msg.channel_id@,
        res.sender_id@ == msg.sender_id@,
        res.content@ == msg.content@,
        res.created_at@ == msg.created_at@,
{
    RspMessage {
        id: msg.id,
        channel_id: msg.channel_id,
        sender_id: msg.sender_id,
        content: msg.content,
        created_at: msg.created_at,
    }
}

/// The event pushed to the online members of a channel when a message is
/// sent to it.
pub fn message_spawned_event(msg: &NewMessage) -> (res: PushEvent)
    ensures
        res matches PushEvent::MessageSpawned { message_id, channel_id, sender_id, content, created_at }
            && message_id@ == msg.id@ && channel_id@ == msg.channel_id@ && sender_id@
            == msg.sender_id@ && content@ == msg.content@ && created_at@ == msg.created_at@,
{
    PushEvent::MessageSpawned {
        message_id: msg.id.clone(),
        channel_id: msg.channel_id.clone(),
        sender_id: msg.sender_id.clone(),
        content: msg.content.clone(),
        created_at: msg.created_at.clone(),
    }
}

} // verus!
