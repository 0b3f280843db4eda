//! Message requests: a user sends messages only under their own id.

use vstd::prelude::*;

use crate::handler::channel::{is_own_request, HandlerStep};
use crate::handler::middleware::UserToken;
use crate::handler::STATUS_FORBIDDEN;
use crate::srv::notify::dto::ReqSendMessage;

verus! {

/// A message goes on only when its sender is the token's user; any other is
/// answered with 403.
pub fn check_send_message(user_token: &UserToken, payload: ReqSendMessage) -> (res: HandlerStep<
    ReqSendMessage,
>)
    ensures
        payload.sender_id@ == user_token.user_id@ ==> res == HandlerStep::Proceed(payload),
        payload.sender_id@ != user_token.user_id@ ==> res == HandlerStep::<ReqSendMessage>::Reply(
            STATUS_FORBIDDEN,
        ),
{
    if is_own_request(user_token, &payload.sender_id) {
        HandlerStep::Proceed(payload)
    } else {
        HandlerStep::Reply(STATUS_FORBIDDEN)
    }
}

} // verus!
