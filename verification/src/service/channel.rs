//! Channels: creation, listings, membership changes, and the cache key of a
//! channel's member list.

use vstd::prelude::*;

use crate::dto::{ReqCreateChannel, RspChannelInfo, RspChannelMember};
use crate::model::{ChannelInfo, NewChannel, NewChannelMember, UserInfo};
use crate::service::{DbError, PushEvent, ServiceError};
use crate::text::{concat2, concat3, text_eq};
use crate::util::{generate_id, is_hyphenated_uuid};

verus! {

/// The fewest members a channel is created with.
pub const MIN_CHANNEL_MEMBERS: usize = 2;

/// The channel types a channel can be created with.
pub open spec fn is_channel_type(t: Seq<char>) -> bool {
    t == "private"@ || t == "public"@
}

/// The name given to a channel created without one.
pub open spec fn default_channel_name(channel_id: Seq<char>) -> Seq<char> {
    "Unnamed group channel # "@ + channel_id.subrange(0, 8)
}

/// The cache key of a channel's member list.
pub open spec fn members_key_text(channel_id: Seq<char>) -> Seq<char> {
    "channel:"@ + channel_id + ":members"@
}

/// A new channel and its membership rows.
pub struct ChannelCreation {
    pub channel: NewChannel,
    pub members: Vec<NewChannelMember>,
}

/// `c` is a creation for `req`: a fresh id, the given or default name, the
/// given type, and one membership row per requested member, in order.
pub open spec fn is_creation_of(req: ReqCreateChannel, c: ChannelCreation) -> bool {
    &&& is_hyphenated_uuid(c.channel.id@)
    &&& c.channel.chan_name@ == match req.chan_name {
        Some(n) => n@,
        None => default_channel_name(c.channel.id@),
    }
    &&& c.channel.channel_type@ == req.channel_type@
    &&& c.members@.len() == req.members@.len()
    &&& forall|i: int|
        0 <= i < c.members@.len() ==> (#[trigger] c.members@[i]).channel_id@ == c.channel.id@
            && c.members@[i].user_id@ == req.members@[i].member_id@
}

/// Plans the creation of a channel. A channel needs at least two members and
/// a type of `private` or `public`; a channel without a name is named after
/// the first eight characters of its id.
pub fn create_channel(req: &ReqCreateChannel) -> (res: Result<ChannelCreation, ServiceError>)
    ensures
        req.members@.len() < MIN_CHANNEL_MEMBERS ==> res matches Err(
            ServiceError::InvalidChannelMemberNumber,
        ),
        req.members@.len() >= MIN_CHANNEL_MEMBERS && !is_channel_type(req.channel_type@)
            ==> res matches Err(ServiceError::InvalidChannelType),
        req.members@.len() >= MIN_CHANNEL_MEMBERS && is_channel_type(req.channel_type@) ==> (
        res matches Ok(c) && is_creation_of(*req, c)),
{
    if req.members.len() < MIN_CHANNEL_MEMBERS {
        return Err(ServiceError::InvalidChannelMemberNumber);
    }
    let channel_id = generate_id();
    let chan_name = match &req.chan_name {
        Some(name) => name.clone(),
        None => {
            let head = channel_id.as_str().substring_char(0, 8);
            concat2("Unnamed group channel # ", head)
        },
    };
    let channel_type = if text_eq(req.channel_type.as_str(), "private") {
        "private".to_owned()
    } else if text_eq(req.channel_type.as_str(), "public") {
        "public".to_owned()
    } else {
        return Err(ServiceError::InvalidChannelType);
    };
    let mut members: Vec<NewChannelMember> = Vec::new();
    let mut i: usize = 0;
    while i < req.members.len()
        invariant
            i <= req.members@.len(),
            members@.len() == i,
            forall|j: int|
                0 <= j < i ==> (#[trigger] members@[j]).channel_id@ == channel_id@
                    && members@[j].user_id@ == req.members@[j].member_id@,
        decreases req.members.len() - i,
    {
        members.push(
            NewChannelMember {
                channel_id: channel_id.clone(),
                user_id: req.members[i].member_id.clone(),
            },
        );
        i = i + 1;
    }
    Ok(ChannelCreation {
        channel: NewChannel { id: channel_id, chan_name, channel_type },
        members,
    })
}

/// Checks that every membership row of a new channel was inserted; on
/// success, the channel's id.
pub fn check_member_rows(inserted: usize, expected: usize, channel_id: String) -> (res: Result<
    String,
    ServiceError,
>)
    ensures
        inserted == expected ==> (res matches Ok(id) && id@ == channel_id@),
        inserted != expected ==> res matches Err(ServiceError::ChannelCreationFailure),
{
    if inserted == expected {
        Ok(channel_id)
    } else {
        Err(ServiceError::ChannelCreationFailure)
    }
}

/// The cache key of a channel's member list.
pub fn members_key(channel_id: &str) -> (res: String)
    ensures
        res@ == members_key_text(channel_id@),
{
    concat3("channel:", channel_id, ":members")
}

/// A channel as shown to clients; a channel without a name shows an empty one.
pub fn channel_to_rsp(c: ChannelInfo) -> (res: RspChannelInfo)
    ensures
        res.id@ == c.id@,
        res.chan_name@ == match c.chan_name {
            Some(n) => n@,
            None => Seq::<char>::empty(),
        },
        res.channel_type@ == c.channel_type@,
        res.created_at@ == c.created_at@,
        res.updated_at@ == c.updated_at@,
{
    let chan_name = match c.chan_name {
        Some(n) => n,
        None => String::new(),
    };
    RspChannelInfo {
        id: c.id,
        chan_name,
        channel_type: c.channel_type,
        created_at: c.created_at,
        updated_at: c.updated_at,
    }
}

/// A member of a channel as shown to clients, from the user's row and the
/// time the user joined.
pub fn member_to_rsp(user: UserInfo, joined_at: String, channel_id: &str) -> (res: RspChannelMember)
    ensures
        res.user_id@ == user.id@,
        res.username@ == user.username@,
        res.user_email@ == user.email@,
        res.channel_id@ == channel_id@,
        res.joined_at@ == joined_at@,
{
    RspChannelMember {
        user_id: user.id,
        username: user.username,
        user_email: user.email,
        channel_id: channel_id.to_owned(),
        joined_at,
    }
}

/// The outcome of adding a user to a channel, from the outcome of inserting
/// the membership row: a broken reference means the channel does not exist,
/// a duplicate row means the user is already a member.
pub fn join_outcome(inserted: Result<usize, DbError>) -> (res: Result<(), ServiceError>)
    ensures
        match inserted {
            Ok(_) => res is Ok,
            Err(DbError::ForeignKeyViolation(_)) => res matches Err(ServiceError::NonexistingChannel),
            Err(DbError::UniqueViolation(_)) => res matches Err(ServiceError::UserAlreadyInChannel),
            Err(e) => res matches Err(ServiceError::DatabaseError(m)) && m@ == e.text(),
        },
{
    match inserted {
        Ok(_) => Ok(()),
        Err(DbError::ForeignKeyViolation(_)) => Err(ServiceError::NonexistingChannel),
        Err(DbError::UniqueViolation(_)) => Err(ServiceError::UserAlreadyInChannel),
        Err(e) => Err(ServiceError::DatabaseError(e.into_text())),
    }
}

/// The outcome of removing a user from a channel, from the number of rows
/// deleted: none deleted means the user was not a member, which is what a
/// second removal of the same membership finds.
pub fn leave_outcome(deleted: usize) -> (res: Result<(), ServiceError>)
    ensures
        deleted == 0 ==> res matches Err(ServiceError::UserNotInChannel),
        deleted > 0 ==> res is Ok,
{
    if deleted == 0 {
        Err(ServiceError::UserNotInChannel)
    } else {
        Ok(())
    }
}

/// The event that tells a user to refresh a channel's member list after
/// joining it.
pub fn joined_event(channel_id: &str) -> (res: PushEvent)
    ensures
        res matches PushEvent::UserJoinedChannel { channel_id: c } && c@ == channel_id@,
{
    PushEvent::UserJoinedChannel { channel_id: channel_id.to_owned() }
}

/// The event that tells a user to refresh a channel's member list after
/// leaving it.
pub fn left_event(channel_id: &str) -> (res: PushEvent)
    ensures
        res matches PushEvent::UserLeftChannel { channel_id: c } && c@ == channel_id@,
{
    PushEvent::UserLeftChannel { channel_id: channel_id.to_owned() }
}

} // verus!
