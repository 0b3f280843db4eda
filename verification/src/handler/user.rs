//! User requests: a user changes only their own profile.

use vstd::prelude::*;

use crate::dto::ReqPatchUser;
use crate::handler::channel::is_own_request;
use crate::handler::middleware::UserToken;
use crate::handler::{AppError, STATUS_FORBIDDEN};

verus! {

/// A profile change goes on only for the token's own user. The user named in
/// the path is not used: the one in the token is the one changed. Any other
/// change is refused with 403.
pub fn check_patch_user(user_token: &UserToken, payload: ReqPatchUser) -> (res: Result<
    ReqPatchUser,
    AppError,
>)
    ensures
        payload.user_id@ == user_token.user_id@ ==> res == Ok::<ReqPatchUser, AppError>(payload),
        payload.user_id@ != user_token.user_id@ ==> (res matches Err(
            AppError::ServiceError(status, msg),
        ) && status == STATUS_FORBIDDEN && msg@ == "Cannot update other user's information"@),
{
    if is_own_request(user_token, &payload.user_id) {
        Ok(payload)
    } else {
        Err(
            AppError::ServiceError(
                STATUS_FORBIDDEN,
                "Cannot update other user's information".to_owned(),
            ),
        )
    }
}

} // verus!
