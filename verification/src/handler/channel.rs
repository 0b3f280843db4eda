//! Channel requests: a user joins or leaves channels only for themselves.

use vstd::prelude::*;

use crate::dto::{ReqAddUserToChannel, ReqRemoveUserFromChannel};
use crate::handler::middleware::UserToken;
use crate::handler::{service_error_status, AppError, STATUS_FORBIDDEN};
use crate::service::{service_error_text, ServiceError};

verus! {

/// What a handler does with a request after its checks.
pub enum HandlerStep<T> {
    /// Answer at once with this status.
    Reply(u16),
    /// Hand the request to the service.
    Proceed(T),
}

/// Whether the token's user is the user a request names.
pub fn is_own_request(user_token: &UserToken, user_id: &String) -> (res: bool)
    ensures
        res == (user_token.user_id@ == user_id@),
{
    user_token.user_id == *user_id
}

/// A join request goes on only for the token's own user; any other is
/// forbidden.
pub fn check_join(user_token: &UserToken, payload: ReqAddUserToChannel) -> (res: HandlerStep<
    ReqAddUserToChannel,
>)
    ensures
        payload.user_id@ == user_token.user_id@ ==> res == HandlerStep::Proceed(payload),
        payload.user_id@ != user_token.user_id@ ==> res == HandlerStep::<ReqAddUserToChannel>::Reply(
            STATUS_FORBIDDEN,
        ),
{
    if is_own_request(user_token, &payload.user_id) {
        HandlerStep::Proceed(payload)
    } else {
        HandlerStep::Reply(STATUS_FORBIDDEN)
    }
}

/// A leave request goes on only for the token's own user; any other is
/// forbidden.
pub fn check_quit(user_token: &UserToken, payload: ReqRemoveUserFromChannel) -> (res: HandlerStep<
    ReqRemoveUserFromChannel,
>)
    ensures
        payload.user_id@ == user_token.user_id@ ==> res == HandlerStep::Proceed(payload),
        payload.user_id@ != user_token.user_id@ ==> res
            == HandlerStep::<ReqRemoveUserFromChannel>::Reply(STATUS_FORBIDDEN),
{
    if is_own_request(user_token, &payload.user_id) {
        HandlerStep::Proceed(payload)
    } else {
        HandlerStep::Reply(STATUS_FORBIDDEN)
    }
}

/// The status of a handler whose service call returns nothing: the success
/// status, or the service error's answer.
pub fn service_reply(result: Result<(), ServiceError>, success: u16) -> (res: Result<u16, AppError>)
    ensures
        match result {
            Ok(()) => res == Ok::<u16, AppError>(success),
            Err(e) => res matches Err(AppError::ServiceError(status, msg)) && status
                == service_error_status(e) && msg@ == service_error_text(e),
        },
{
    match result {
        Ok(()) => Ok(success),
        Err(e) => Err(AppError::from_service_error(e)),
    }
}

} // verus!
