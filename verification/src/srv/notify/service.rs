//! The decisions of the notification service.

use vstd::prelude::*;

use crate::srv::notify::dto::{ClientMessage, MemberView, ReqSendMessage, RspChannelMember};
use crate::service::DbError;
use crate::text::{concat2, text_eq};

verus! {

/// The stream through which the instances of the notification service pass
/// events on to each other.
pub const EVENT_QUEUE_KEY: &'static str = "chatyk:event_queue";

/// Errors of the notification service. Variants that wrap a failure of
/// another component keep that failure's text.
pub enum ServiceError {
    UserAlreadyInChannel,
    UserNotInChannel,
    NonexistingChannel,
    CloseWebsocket,
    InvalidMessage,
    /// A client asked to send a message in another user's name.
    SenderMismatch,
    AxumError(String),
    RedisError(String),
    SerdeJsonError(String),
    BlockingJoinError(String),
    DatabasePoolError(String),
    DatabaseError(String),
}

/// The text that describes an error of the notification service.
pub open spec fn notify_error_text(e: ServiceError) -> Seq<char> {
    match e {
        ServiceError::UserAlreadyInChannel => "User is already in the channel"@,
        ServiceError::UserNotInChannel => "User is not in the channel"@,
        ServiceError::NonexistingChannel => "Channel does not exist"@,
        ServiceError::CloseWebsocket => "Close websocket normally"@,
        ServiceError::InvalidMessage => "Invalid message format"@,
        ServiceError::SenderMismatch => "Sender is not the connected user"@,
        ServiceError::AxumError(m) => "Axum error: "@ + m@,
        ServiceError::RedisError(m) => "Redis error: "@ + m@,
        ServiceError::SerdeJsonError(m) => "Serialization error: "@ + m@,
        ServiceError::BlockingJoinError(m) => "Blocking join error: "@ + m@,
        ServiceError::DatabasePoolError(m) => "Database pool error: "@ + m@,
        ServiceError::DatabaseError(m) => "Database error: "@ + m@,
    }
}

impl ServiceError {
    /// The text that describes this error.
    pub fn to_text(&self) -> (res: String)
        ensures
            res@ == notify_error_text(*self),
    {
        match self {
            ServiceError::UserAlreadyInChannel => "User is already in the channel".to_owned(),
            ServiceError::UserNotInChannel => "User is not in the channel".to_owned(),
            ServiceError::NonexistingChannel => "Channel does not exist".to_owned(),
            ServiceError::CloseWebsocket => "Close websocket normally".to_owned(),
            ServiceError::InvalidMessage => "Invalid message format".to_owned(),
            ServiceError::SenderMismatch => "Sender is not the connected user".to_owned(),
            ServiceError::AxumError(m) => concat2("Axum error: ", m.as_str()),
            ServiceError::RedisError(m) => concat2("Redis error: ", m.as_str()),
            ServiceError::SerdeJsonError(m) => concat2("Serialization error: ", m.as_str()),
            ServiceError::BlockingJoinError(m) => concat2("Blocking join error: ", m.as_str()),
            ServiceError::DatabasePoolError(m) => concat2("Database pool error: ", m.as_str()),
            ServiceError::DatabaseError(m) => concat2("Database error: ", m.as_str()),
        }
    }
}

/// A frame received over a client's websocket.
pub enum WsFrame {
    Text(String),
    Binary,
    Ping,
    Pong,
    Close,
}

/// What to do with a received frame: a text frame is a client request to
/// parse, a close frame ends the connection, other frames are ignored.
pub fn handle_recv_message(frame: WsFrame) -> (res: Result<Option<String>, ServiceError>)
    ensures
        match frame {
            WsFrame::Text(t) => res matches Ok(Some(r)) && r@ == t@,
            WsFrame::Close => res matches Err(ServiceError::CloseWebsocket),
            _ => res matches Ok(None),
        },
{
    match frame {
        WsFrame::Text(t) => Ok(Some(t)),
        WsFrame::Close => Err(ServiceError::CloseWebsocket),
        WsFrame::Binary => Ok(None),
        WsFrame::Ping => Ok(None),
        WsFrame::Pong => Ok(None),
    }
}

/// What the service does for a client request.
pub enum ClientAction {
    /// Store and spread a message.
    Send(ReqSendMessage),
    /// Read the newest messages through the cache and send them to `reply_to`.
    ListRecent { reply_to: String, channel_id: String, limit: i64 },
    /// Read a page of older messages from the database and send them to
    /// `reply_to`.
    ListPage { reply_to: String, channel_id: String, offset: i64, limit: i64 },
}

/// Dispatches a client request from the connected user `user_id`: a message
/// is accepted only in the connected user's own name; a listing from the
/// start goes through the cache of recent messages, any other listing reads
/// the database.
pub fn handle_client_message(user_id: String, msg: ClientMessage) -> (res: Result<
    ClientAction,
    ServiceError,
>)
    ensures
        match msg {
            ClientMessage::ReqSendMessage { sender_id, channel_id, content } => if sender_id@
                == user_id@ {
                res matches Ok(ClientAction::Send(r)) && r.sender_id@ == sender_id@
                    && r.channel_id@ == channel_id@ && r.content@ == content@
            } else {
                res matches Err(ServiceError::SenderMismatch)
            },
            ClientMessage::ReqListChannelMessages { channel_id, offset, limit } => if offset == 0 {
                res matches Ok(ClientAction::ListRecent { reply_to, channel_id: c, limit: l })
                    && reply_to@ == user_id@ && c@ == channel_id@ && l == limit as i64
            } else {
                res matches Ok(ClientAction::ListPage { reply_to, channel_id: c, offset: o, limit: l })
                    && reply_to@ == user_id@ && c@ == channel_id@ && o == offset as i64 && l
                    == limit as i64
            },
        },
{
    match msg {
        ClientMessage::ReqSendMessage { sender_id, channel_id, content } => {
            if text_eq(sender_id.as_str(), user_id.as_str()) {
                Ok(ClientAction::Send(ReqSendMessage { sender_id, channel_id, content }))
            } else {
                Err(ServiceError::SenderMismatch)
            }
        },
        ClientMessage::ReqListChannelMessages { channel_id, offset, limit } => {
            if offset == 0 {
                Ok(ClientAction::ListRecent { reply_to: user_id, channel_id, limit: limit as i64 })
            } else {
                Ok(ClientAction::ListPage {
                    reply_to: user_id,
                    channel_id,
                    offset: offset as i64,
                    limit: limit as i64,
                })
            }
        },
    }
}

/// Whether any entry is `v`.
pub open spec fn any_is(flags: Seq<bool>, v: bool) -> bool {
    exists|i: int| 0 <= i < flags.len() && flags[i] == v
}

/// Whether any entry of a list of flags is `v`.
fn find_flag(flags: &Vec<bool>, v: bool) -> (res: bool)
    ensures
        res == any_is(flags@, v),
        forall|i: int| 0 <= i < flags@.len() && flags@[i] == v ==> res,
        res ==> exists|i: int| 0 <= i < flags@.len() && flags@[i] == v,
{
    let mut i: usize = 0;
    while i < flags.len()
        invariant
            i <= flags.len(),
            forall|j: int| 0 <= j < i ==> flags@[j] != v,
        decreases flags.len() - i,
    {
        if flags[i] == v {
            return true;
        }
        i = i + 1;
    }
    false
}

/// Whether an event also goes to the event queue, for the other instances
/// of the service: after a message is sent or a user joins or leaves a
/// channel, the event is sent directly to the members connected here, and it
/// is queued when some member is not connected here. `connected[i]` tells
/// whether the i-th member is connected here.
pub fn queue_for_other_instances(connected: &Vec<bool>) -> (res: bool)
    ensures
        res == any_is(connected@, false),
        forall|i: int| 0 <= i < connected@.len() && !connected@[i] ==> res,
        !res ==> forall|i: int| 0 <= i < connected@.len() ==> connected@[i],
{
    find_flag(connected, false)
}

/// An event is queued for the other instances whenever a member at any
/// position is not connected here, and only then: when every member is
/// connected here, nothing is queued.
pub proof fn lemma_queue_exactly_when_someone_is_elsewhere(connected: Seq<bool>)
    ensures
        forall|i: int| 0 <= i < connected.len() && !connected[i] ==> any_is(connected, false),
        (forall|i: int| 0 <= i < connected.len() ==> connected[i]) ==> !any_is(connected, false),
{
    assert forall|i: int| 0 <= i < connected.len() && !connected[i] implies any_is(connected, false) by {
        assert(connected[i] == false);
    }
}

/// Whether a channel's member list was found in the cache: `present[i]`
/// tells whether the i-th key read had a value.
pub fn members_cache_hit(present: &Vec<bool>) -> (res: bool)
    ensures
        res == any_is(present@, true),
        forall|i: int| 0 <= i < present@.len() && present@[i] ==> res,
        !res ==> forall|i: int| 0 <= i < present@.len() ==> !present@[i],
{
    find_flag(present, true)
}

/// The outcome of adding a user to a channel, from the outcome of inserting
/// the membership row: a broken reference means the channel does not exist,
/// a duplicate row means the user is already a member.
pub fn join_outcome(inserted: Result<usize, DbError>) -> (res: Result<(), ServiceError>)
    ensures
        match inserted {
            Ok(_) => res is Ok,
            Err(DbError::ForeignKeyViolation(_)) => res matches Err(ServiceError::NonexistingChannel),
            Err(DbError::UniqueViolation(_)) => res matches Err(ServiceError::UserAlreadyInChannel),
            Err(e) => res matches Err(ServiceError::DatabaseError(m)) && m@ == e.text(),
        },
{
    match inserted {
        Ok(_) => Ok(()),
        Err(DbError::ForeignKeyViolation(_)) => Err(ServiceError::NonexistingChannel),
        Err(DbError::UniqueViolation(_)) => Err(ServiceError::UserAlreadyInChannel),
        Err(e) => Err(ServiceError::DatabaseError(e.into_text())),
    }
}

/// The outcome of removing a user from a channel, from the number of rows
/// deleted: none deleted means the user was not a member.
pub fn leave_outcome(deleted: usize) -> (res: Result<(), ServiceError>)
    ensures
        deleted == 0 ==> res matches Err(ServiceError::UserNotInChannel),
        deleted > 0 ==> res is Ok,
{
    if deleted == 0 {
        Err(ServiceError::UserNotInChannel)
    } else {
        Ok(())
    }
}

/// The members in the groups that could be read from the cache, in order.
pub open spec fn flatten_groups(groups: Seq<Option<Seq<MemberView>>>) -> Seq<MemberView>
    decreases groups.len(),
{
    if groups.len() == 0 {
        Seq::empty()
    } else {
        let rest = flatten_groups(groups.drop_last());
        match groups.last() {
            Some(g) => rest + g,
            None => rest,
        }
    }
}

/// The number of members in the groups that could be read from the cache.
pub open spec fn member_count(groups: Seq<Option<Seq<MemberView>>>) -> nat
    decreases groups.len(),
{
    if groups.len() == 0 {
        0
    } else {
        member_count(groups.drop_last()) + match groups.last() {
            Some(g) => g.len(),
            None => 0,
        }
    }
}

/// Whether `m` is a member of one of the groups that could be read.
pub open spec fn is_group_member(groups: Seq<Option<Seq<MemberView>>>, m: MemberView) -> bool {
    exists|i: int, k: int|
        0 <= i < groups.len() && groups[i] is Some && 0 <= k < groups[i]->Some_0.len()
            && groups[i]->Some_0[k] == m
}

/// Reading a channel's members from the cache keeps every member of every
/// group that could be read, and nothing else: as many members as the groups
/// hold, each member of each group among them, each of them from a group,
/// and the members of one group one after the other in their order.
pub proof fn lemma_cached_members_keep_every_member(groups: Seq<Option<Seq<MemberView>>>)
    ensures
        flatten_groups(groups).len() == member_count(groups),
        forall|i: int, k: int|
            #![trigger groups[i]->Some_0[k]]
            0 <= i < groups.len() && groups[i] is Some && 0 <= k < groups[i]->Some_0.len()
                ==> flatten_groups(groups).contains(groups[i]->Some_0[k]),
        forall|j: int|
            0 <= j < flatten_groups(groups).len() ==> is_group_member(
                groups,
                #[trigger] flatten_groups(groups)[j],
            ),
        groups.len() > 0 && groups.last() is Some ==> flatten_groups(groups).subrange(
            flatten_groups(groups).len() - groups.last()->Some_0.len(),
            flatten_groups(groups).len() as int,
        ) == groups.last()->Some_0,
    decreases groups.len(),
{
    if groups.len() > 0 {
        let p = groups.drop_last();
        lemma_cached_members_keep_every_member(p);
        let r = flatten_groups(p);
        let f = flatten_groups(groups);
        assert forall|i: int, k: int|
            #![trigger groups[i]->Some_0[k]]
            0 <= i < groups.len() && groups[i] is Some && 0 <= k
                < groups[i]->Some_0.len() implies f.contains(groups[i]->Some_0[k]) by {
            let g = groups[i]->Some_0;
            if i < groups.len() - 1 {
                assert(p[i] == groups[i]);
                assert(r.contains(g[k]));
                let j = choose|j: int| 0 <= j < r.len() && r[j] == g[k];
                assert(f[j] == r[j]);
            } else {
                assert(f[r.len() + k] == g[k]);
            }
        }
        assert forall|j: int| 0 <= j < f.len() implies is_group_member(groups, #[trigger] f[j]) by {
            if j < r.len() {
                assert(f[j] == r[j]);
                assert(is_group_member(p, r[j]));
                let (i, k) = choose|i: int, k: int|
                    0 <= i < p.len() && p[i] is Some && 0 <= k < p[i]->Some_0.len()
                        && p[i]->Some_0[k] == r[j];
                assert(groups[i] == p[i]);
                assert(groups[i]->Some_0[k] == f[j]);
            } else {
                let g = groups.last()->Some_0;
                assert(groups[groups.len() - 1] == groups.last());
                assert(g[j - r.len()] == f[j]);
                assert(groups[groups.len() - 1]->Some_0[j - r.len()] == f[j]);
            }
        }
        if groups.last() is Some {
            assert(f.subrange(f.len() - groups.last()->Some_0.len(), f.len() as int)
                =~= groups.last()->Some_0);
        }
    }
}

/// The values of cached member groups, each parsed or not.
pub open spec fn groups_view(groups: Seq<Option<Vec<RspChannelMember>>>) -> Seq<Option<Seq<MemberView>>> {
    groups.map_values(|g: Option<Vec<RspChannelMember>>| match g {
        Some(v) => Some(v@.map_values(|m: RspChannelMember| m@)),
        None => None,
    })
}

/// The members of a channel read from the cache: the groups that could be
/// read, one after the other; groups that could not be read are skipped.
pub fn cached_members(groups: &Vec<Option<Vec<RspChannelMember>>>) -> (res: Vec<RspChannelMember>)
    ensures
        res@.map_values(|m: RspChannelMember| m@) == flatten_groups(groups_view(groups@)),
        res@.len() == member_count(groups_view(groups@)),
{
    let ghost gs = groups_view(groups@);
    let mut out: Vec<RspChannelMember> = Vec::new();
    let mut i: usize = 0;
    assert(out@.map_values(|m: RspChannelMember| m@) =~= flatten_groups(gs.take(0)));
    while i < groups.len()
        invariant
            i <= groups.len(),
            gs == groups_view(groups@),
            out@.map_values(|m: RspChannelMember| m@) == flatten_groups(gs.take(i as int)),
        decreases groups.len() - i,
    {
        proof {
            assert(gs.take(i + 1).drop_last() =~= gs.take(i as int));
        }
        match &groups[i] {
            Some(g) => {
                let ghost base = out@.map_values(|m: RspChannelMember| m@);
                let ghost gv = g@.map_values(|m: RspChannelMember| m@);
                let mut k: usize = 0;
                while k < g.len()
                    invariant
                        k <= g.len(),
                        gv == g@.map_values(|m: RspChannelMember| m@),
                        out@.map_values(|m: RspChannelMember| m@) == base + gv.take(k as int),
                    decreases g.len() - k,
                {
                    let ghost before = out@;
                    let c = g[k].copy();
                    out.push(c);
                    assert(out@.map_values(|m: RspChannelMember| m@) =~= before.map_values(
                        |m: RspChannelMember| m@,
                    ).push(c@));
                    assert(base + gv.take(k + 1) =~= (base + gv.take(k as int)).push(gv[k as int]));
                    k = k + 1;
                }
                assert(gv.take(g.len() as int) =~= gv);
            },
            None => {},
        }
        i = i + 1;
    }
    assert(gs.take(groups.len() as int) =~= gs);
    proof {
        lemma_cached_members_keep_every_member(gs);
    }
    out
}

} // verus!
