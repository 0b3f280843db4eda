//! Response bodies.

use vstd::prelude::*;

verus! {

/// A user as shown to clients.
pub struct RspUserInfo {
    pub id: String,
    pub username: String,
    pub email: String,
    pub created_at: String,
}

/// A channel as shown to clients.
pub struct RspChannelInfo {
    pub id: String,
    pub chan_name: String,
    pub channel_type: String,
    pub created_at: String,
    pub updated_at: String,
}

/// A member of a channel as shown to clients.
pub struct RspChannelMember {
    pub user_id: String,
    pub username: String,
    pub user_email: String,
    pub channel_id: String,
    pub joined_at: String,
}

/// A chat message as shown to clients and as kept in the recent-messages cache.
pub struct RspMessage {
    pub id: String,
    pub channel_id: String,
    pub sender_id: String,
    pub content: String,
    pub created_at: String,
}

/// The value of a message, as sequences of characters.
pub struct MessageView {
    pub id: Seq<char>,
    pub channel_id: Seq<char>,
    pub sender_id: Seq<char>,
    pub content: Seq<char>,
    pub created_at: Seq<char>,
}

impl View for RspMessage {
    type V = MessageView;

    open spec fn view(&self) -> MessageView {
        MessageView {
            id: self.id@,
            channel_id: self.channel_id@,
            sender_id: self.sender_id@,
            content: self.content@,
            created_at: self.created_at@,
        }
    }
}

impl RspMessage {
    /// A copy of the message with the same value.
    pub fn copy(&self) -> (res: RspMessage)
        ensures
            res@ == self@,
    {
        RspMessage {
            id: self.id.clone(),
            channel_id: self.channel_id.clone(),
            sender_id: self.sender_id.clone(),
            content: self.content.clone(),
            created_at: self.created_at.clone(),
        }
    }
}

/// An uploaded file as shown to clients.
pub struct RspResourceInfo {
    pub id: String,
    pub url: String,
    pub uploaded_at: String,
}

} // verus!
