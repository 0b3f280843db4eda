//! Authentication of API requests: the token carried in the `Authorization`
//! header.

use vstd::prelude::*;

use crate::handler::STATUS_UNAUTHORIZED;
use crate::text::{has_prefix, strip_prefix};

verus! {

/// The claims of a user's token: who the user is and when the token expires,
/// in seconds since the Unix epoch.
pub struct UserToken {
    pub user_id: String,
    pub exp: i64,
}

/// The scheme that prefixes a token in an `Authorization` header.
pub open spec fn bearer_prefix() -> Seq<char> {
    "Bearer "@
}

/// The token of an `Authorization` header: the text after `Bearer `. A
/// missing header, or one without that prefix, is answered with 401.
pub fn bearer_token(header: Option<&str>) -> (res: Result<String, u16>)
    ensures
        match header {
            None => res == Err::<String, u16>(STATUS_UNAUTHORIZED),
            Some(h) => if has_prefix(h@, bearer_prefix()) {
                res matches Ok(t) && t@ == h@.subrange(bearer_prefix().len() as int, h@.len() as int)
            } else {
                res == Err::<String, u16>(STATUS_UNAUTHORIZED)
            },
        },
{
    match header {
        None => Err(STATUS_UNAUTHORIZED),
        Some(h) => match strip_prefix(h, "Bearer ") {
            Some(t) => Ok(t),
            None => Err(STATUS_UNAUTHORIZED),
        },
    }
}

} // verus!
