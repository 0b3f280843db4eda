//! Rows of the database as the service sees them. Timestamps are carried as
//! the text the service shows to clients.

use vstd::prelude::*;

verus! {

/// A user row to insert.
pub struct NewUser {
    pub id: String,
    pub username: String,
    pub email: String,
    pub password_hash: String,
}

/// A user row as read back.
pub struct UserInfo {
    pub id: String,
    pub username: String,
    pub email: String,
    pub created_at: String,
}

/// A channel row to insert.
pub struct NewChannel {
    pub id: String,
    pub chan_name: String,
    pub channel_type: String,
}

/// A channel row as read back.
pub struct ChannelInfo {
    pub id: String,
    pub chan_name: Option<String>,
    pub channel_type: String,
    pub created_at: String,
    pub updated_at: String,
}

/// A membership row to insert.
pub struct NewChannelMember {
    pub channel_id: String,
    pub user_id: String,
}

/// A message row to insert.
pub struct NewMessage {
    pub id: String,
    pub channel_id: String,
    pub sender_id: String,
    /// A rich-text XML string.
    pub content: String,
    pub created_at: String,
}

/// A message row as read back.
pub struct MessageInfo {
    pub id: String,
    pub channel_id: String,
    pub sender_id: String,
    pub content: String,
    pub created_at: String,
}

/// The values of an optional string.
pub open spec fn opt_view(o: Option<String>) -> Option<Seq<char>> {
    match o {
        Some(s) => Some(s@),
        None => None,
    }
}

} // verus!
