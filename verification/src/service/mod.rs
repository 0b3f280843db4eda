//! The service layer: errors, notification events and the decisions taken
//! around each database and cache operation.

pub mod channel;
pub mod message;
pub mod recent;
pub mod resource;
pub mod user;

use vstd::prelude::*;

use crate::text::concat2;
use self::channel::members_key_text;
use self::message::{recent_messages_key_text, recent_messages_lock_key_text};

verus! {

/// How a database operation failed, as far as the service's decisions go.
/// Each variant other than `NotFound` keeps the database's own message.
pub enum DbError {
    NotFound(String),
    UniqueViolation(String),
    ForeignKeyViolation(String),
    Other(String),
}

impl DbError {
    /// The database's own message.
    pub open spec fn text(&self) -> Seq<char> {
        match self {
            DbError::NotFound(m) => m@,
            DbError::UniqueViolation(m) => m@,
            DbError::ForeignKeyViolation(m) => m@,
            DbError::Other(m) => m@,
        }
    }

    /// Returns the database's own message.
    pub fn into_text(self) -> (res: String)
        ensures
            res@ == self.text(),
    {
        match self {
            DbError::NotFound(m) => m,
            DbError::UniqueViolation(m) => m,
            DbError::ForeignKeyViolation(m) => m,
            DbError::Other(m) => m,
        }
    }
}

/// Errors of the service layer. Variants that wrap a failure of another
/// component keep that failure's message.
pub enum ServiceError {
    EmailOrUsernameConflict,
    UserNotFound,
    PasswordMismatch,
    PasswordHashError(String),
    InvalidChannelType,
    InvalidChannelMemberNumber,
    ChannelCreationFailure,
    UserAlreadyInChannel,
    UserNotInChannel,
    NonexistingChannel,
    CacheError(String),
    SerdeJsonError(String),
    BlockingJoinError(String),
    StdIoError(String),
    ResourceUploadError(String),
    ResourceMultipartError(String),
    DbPoolError(String),
    DatabaseError(String),
}

/// The text that describes a service error.
pub open spec fn service_error_text(e: ServiceError) -> Seq<char> {
    match e {
        ServiceError::EmailOrUsernameConflict => "Email of username already exists"@,
        ServiceError::UserNotFound => "User not found"@,
        ServiceError::PasswordMismatch => "Password mismatch"@,
        ServiceError::PasswordHashError(m) => "Unable to process password: "@ + m@,
        ServiceError::InvalidChannelType => "Invalid channel type"@,
        ServiceError::InvalidChannelMemberNumber => "Invalid number of channel members, at least 2 members are required"@,
        ServiceError::ChannelCreationFailure => "Failed to create channel"@,
        ServiceError::UserAlreadyInChannel => "User is already in the channel"@,
        ServiceError::UserNotInChannel => "User is not in the channel"@,
        ServiceError::NonexistingChannel => "Channel does not exist"@,
        ServiceError::CacheError(m) => "Cache error: "@ + m@,
        ServiceError::SerdeJsonError(m) => "Serialization error: "@ + m@,
        ServiceError::BlockingJoinError(m) => "Blocking join error: "@ + m@,
        ServiceError::StdIoError(m) => "Std IO error: "@ + m@,
        ServiceError::ResourceUploadError(m) => "Resource upload error: "@ + m@,
        ServiceError::ResourceMultipartError(m) => "Multipart resource upload error: "@ + m@,
        ServiceError::DbPoolError(m) => "Database pool error: "@ + m@,
        ServiceError::DatabaseError(m) => "Database error: "@ + m@,
    }
}

impl ServiceError {
    /// The text that describes this error.
    pub fn to_text(&self) -> (res: String)
        ensures
            res@ == service_error_text(*self),
    {
        match self {
            ServiceError::EmailOrUsernameConflict => "Email of username already exists".to_owned(),
            ServiceError::UserNotFound => "User not found".to_owned(),
            ServiceError::PasswordMismatch => "Password mismatch".to_owned(),
            ServiceError::PasswordHashError(m) => concat2("Unable to process password: ", m.as_str()),
            ServiceError::InvalidChannelType => "Invalid channel type".to_owned(),
            ServiceError::InvalidChannelMemberNumber => {
                "Invalid number of channel members, at least 2 members are required".to_owned()
            },
            ServiceError::ChannelCreationFailure => "Failed to create channel".to_owned(),
            ServiceError::UserAlreadyInChannel => "User is already in the channel".to_owned(),
            ServiceError::UserNotInChannel => "User is not in the channel".to_owned(),
            ServiceError::NonexistingChannel => "Channel does not exist".to_owned(),
            ServiceError::CacheError(m) => concat2("Cache error: ", m.as_str()),
            ServiceError::SerdeJsonError(m) => concat2("Serialization error: ", m.as_str()),
            ServiceError::BlockingJoinError(m) => concat2("Blocking join error: ", m.as_str()),
            ServiceError::StdIoError(m) => concat2("Std IO error: ", m.as_str()),
            ServiceError::ResourceUploadError(m) => concat2("Resource upload error: ", m.as_str()),
            ServiceError::ResourceMultipartError(m) => {
                concat2("Multipart resource upload error: ", m.as_str())
            },
            ServiceError::DbPoolError(m) => concat2("Database pool error: ", m.as_str()),
            ServiceError::DatabaseError(m) => concat2("Database error: ", m.as_str()),
        }
    }
}

/// Events pushed to connected users.
pub enum PushEvent {
    MessageSpawned {
        message_id: String,
        channel_id: String,
        sender_id: String,
        content: String,
        created_at: String,
    },
    /// The receiver should refresh the channel's member list.
    UserJoinedChannel { channel_id: String },
    /// The receiver should refresh the channel's member list.
    UserLeftChannel { channel_id: String },
}


/// Two channels never share the cache key of their member lists.
pub proof fn lemma_members_keys_distinct(a: Seq<char>, b: Seq<char>)
    requires
        a != b,
    ensures
        members_key_text(a) != members_key_text(b),
{
    reveal_strlit("channel:");
    reveal_strlit(":members");
    assert("channel:"@.len() == 8);
    assert(":members"@.len() == 8);
    let ka = members_key_text(a);
    let kb = members_key_text(b);
    if ka == kb {
        assert(ka.len() == a.len() + 16);
        assert(kb.len() == b.len() + 16);
        assert forall|i: int| 0 <= i < a.len() implies a[i] == b[i] by {
            assert(ka[8 + i] == a[i]);
            assert(kb[8 + i] == b[i]);
        }
        assert(a =~= b);
    }
}

/// Two channels never share the cache key of their recent messages.
pub proof fn lemma_recent_messages_keys_distinct(a: Seq<char>, b: Seq<char>)
    requires
        a != b,
    ensures
        recent_messages_key_text(a) != recent_messages_key_text(b),
{
    reveal_strlit("channel:");
    reveal_strlit(":recent_messages");
    assert("channel:"@.len() == 8);
    assert(":recent_messages"@.len() == 16);
    let ka = recent_messages_key_text(a);
    let kb = recent_messages_key_text(b);
    if ka == kb {
        assert(ka.len() == a.len() + 24);
        assert(kb.len() == b.len() + 24);
        assert forall|i: int| 0 <= i < a.len() implies a[i] == b[i] by {
            assert(ka[8 + i] == a[i]);
            assert(kb[8 + i] == b[i]);
        }
        assert(a =~= b);
    }
}

/// The cache never keeps a member list and recent messages under the same
/// key, and a refresh lock never takes the key of either.
pub proof fn lemma_cache_keys_never_collide(a: Seq<char>, b: Seq<char>)
    ensures
        members_key_text(a) != recent_messages_key_text(b),
        recent_messages_lock_key_text(a) != recent_messages_key_text(b),
        recent_messages_lock_key_text(a) != members_key_text(b),
{
    reveal_strlit("channel:");
    reveal_strlit(":members");
    reveal_strlit(":recent_messages");
    reveal_strlit("lock:channel:");
    let m = members_key_text(a);
    let r = recent_messages_key_text(b);
    if m == r {
        let n = m.len();
        assert(m[n - 8] == ':');
        assert(r[n - 8] == 'm');
    }
    let l = recent_messages_lock_key_text(a);
    assert(l[0] == 'l');
    assert(r[0] == 'c');
    assert(members_key_text(b)[0] == 'c');
}

} // verus!
