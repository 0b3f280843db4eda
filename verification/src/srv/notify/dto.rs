//! Messages exchanged with clients of the notification service.

use vstd::prelude::*;

verus! {

/// A message a user sends to a channel.
pub struct ReqSendMessage {
    pub sender_id: String,
    pub channel_id: String,
    pub content: String,
}

/// A member of a channel as shown to clients.
pub struct RspChannelMember {
    pub user_id: String,
    pub username: String,
    pub channel_id: String,
    pub joined_at: String,
}

/// The value of a member, as sequences of characters.
pub struct MemberView {
    pub user_id: Seq<char>,
    pub username: Seq<char>,
    pub channel_id: Seq<char>,
    pub joined_at: Seq<char>,
}

impl View for RspChannelMember {
    type V = MemberView;

    open spec fn view(&self) -> MemberView {
        MemberView {
            user_id: self.user_id@,
            username: self.username@,
            channel_id: self.channel_id@,
            joined_at: self.joined_at@,
        }
    }
}

impl RspChannelMember {
    /// A copy of the member with the same value.
    pub fn copy(&self) -> (res: RspChannelMember)
        ensures
            res@ == self@,
    {
        RspChannelMember {
            user_id: self.user_id.clone(),
            username: self.username.clone(),
            channel_id: self.channel_id.clone(),
            joined_at: self.joined_at.clone(),
        }
    }
}

/// A chat message as shown to clients; the time is in RFC 3339 form.
pub struct RspMessage {
    pub message_id: String,
    pub sender_id: String,
    pub channel_id: String,
    pub content: String,
    pub created_at: String,
}

/// A request sent by a client over the websocket.
pub enum ClientMessage {
    ReqSendMessage { sender_id: String, channel_id: String, content: String },
    ReqListChannelMessages { channel_id: String, offset: usize, limit: usize },
}

} // verus!
