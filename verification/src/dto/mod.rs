//! Data carried by requests and responses of the HTTP interface.

pub mod request;
pub mod response;

use vstd::prelude::*;

pub use request::{
    ReqAddUserToChannel, ReqChannelMember, ReqCreateChannel, ReqPatchUser, ReqRegisterUser,
    ReqRemoveUserFromChannel, ReqUserLogin,
};
pub use response::{
    MessageView, RspChannelInfo, RspChannelMember, RspMessage, RspResourceInfo, RspUserInfo,
};

verus! {

/// Page size used when a listing request names none.
pub const DEFAULT_PAGE_LIMIT: i64 = 20;

/// Body of every error answer: the HTTP status and a message for the client.
pub struct ErrorResponse {
    pub code: u16,
    pub message: String,
}

/// Optional paging parameters of a listing request.
pub struct PaginatedParams {
    pub limit: Option<i64>,
    pub offset: Option<i64>,
}

impl PaginatedParams {
    /// The offset to use: the one given, else 0.
    pub fn offset_or_default(&self) -> (res: i64)
        ensures
            res == match self.offset {
                Some(o) => o,
                None => 0i64,
            },
    {
        match self.offset {
            Some(o) => o,
            None => 0,
        }
    }

    /// The page size to use: the one given, else [`DEFAULT_PAGE_LIMIT`].
    pub fn limit_or_default(&self) -> (res: i64)
        ensures
            res == match self.limit {
                Some(l) => l,
                None => DEFAULT_PAGE_LIMIT,
            },
    {
        match self.limit {
            Some(l) => l,
            None => DEFAULT_PAGE_LIMIT,
        }
    }
}

} // verus!
