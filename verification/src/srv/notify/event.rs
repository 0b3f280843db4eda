//! Events sent by the notification service to its clients. Times are in
//! RFC 3339 form.

use vstd::prelude::*;

use crate::srv::notify::dto::RspMessage;

verus! {

/// An event for a connected client.
pub enum ServerEvent {
    SpawnMessage { sender_id: String, channel_id: String, content: String, created_at: String },
    MessageList { channel_id: String, messages: Vec<RspMessage> },
    UserJoinChannel { user_id: String, channel_id: String, joined_at: String },
    UserLeaveChannel { user_id: String, channel_id: String, left_at: String },
}

} // verus!
