//! Request bodies.

use vstd::prelude::*;

verus! {

/// Body of a registration request.
pub struct ReqRegisterUser {
    pub username: String,
    pub email: String,
    pub password: String,
}

/// Body of a login request.
pub struct ReqUserLogin {
    pub username: String,
    pub password: String,
}

/// Body of a request that changes some of a user's fields; absent fields stay.
pub struct ReqPatchUser {
    pub user_id: String,
    pub username: Option<String>,
    pub email: Option<String>,
    pub password: Option<String>,
}

/// One member named in a channel-creation request.
pub struct ReqChannelMember {
    pub member_id: String,
    pub member_name: String,
}

/// Creates a new channel. A channel is made of at least two members, so
/// `members` is required.
pub struct ReqCreateChannel {
    pub members: Vec<ReqChannelMember>,
    pub chan_name: Option<String>,
    pub channel_type: String,
}

/// Adds a user to a channel.
pub struct ReqAddUserToChannel {
    pub user_id: String,
    pub channel_id: String,
}

/// Removes a user from a channel.
pub struct ReqRemoveUserFromChannel {
    pub user_id: String,
    pub channel_id: String,
}

} // verus!
