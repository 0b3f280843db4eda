//! Registration and login answers: the token's lifetime and the cookie that
//! carries it.

use vstd::prelude::*;

use crate::handler::middleware::{bearer_prefix, UserToken};
use crate::handler::AppError;
use crate::text::{concat2, has_prefix};

verus! {

/// Seconds in an hour.
pub const SECS_PER_HOUR: i64 = 3600;

/// The token of a user who just registered or logged in: it expires the
/// configured number of hours after `now`.
pub fn user_token(user_id: String, now: i64, expiration_hours: i64) -> (res: UserToken)
    requires
        i64::MIN <= now + expiration_hours * SECS_PER_HOUR <= i64::MAX,
        i64::MIN <= expiration_hours * SECS_PER_HOUR <= i64::MAX,
    ensures
        res.user_id@ == user_id@,
        res.exp == now + expiration_hours * SECS_PER_HOUR,
{
    let lifetime = expiration_hours * SECS_PER_HOUR;
    UserToken { user_id, exp: now + lifetime }
}

/// How long the token cookie lives, in seconds.
pub fn cookie_max_age_secs(expiration_hours: i64) -> (res: i64)
    requires
        i64::MIN <= expiration_hours * SECS_PER_HOUR <= i64::MAX,
    ensures
        res == expiration_hours * SECS_PER_HOUR,
{
    expiration_hours * SECS_PER_HOUR
}

/// The value of the cookie that carries a token: the token after `Bearer `.
pub open spec fn token_cookie_text(token: Seq<char>) -> Seq<char> {
    bearer_prefix() + token
}

/// The cookie value for an encoded token; a token that could not be encoded
/// is a token-generation failure.
pub fn token_cookie(encoded: Result<String, String>) -> (res: Result<String, AppError>)
    ensures
        match encoded {
            Ok(t) => res matches Ok(v) && v@ == token_cookie_text(t@),
            Err(_) => res matches Err(AppError::TokenGenerationFailure),
        },
{
    match encoded {
        Ok(t) => Ok(concat2("Bearer ", t.as_str())),
        Err(_) => Err(AppError::TokenGenerationFailure),
    }
}

/// The outcome of adding the token cookie to an answer; a value that is not
/// a valid header is a cookie failure.
pub fn cookie_outcome(appended: Result<(), String>) -> (res: Result<(), AppError>)
    ensures
        appended is Ok ==> res is Ok,
        appended is Err ==> res matches Err(AppError::CookieAppendError),
{
    match appended {
        Ok(()) => Ok(()),
        Err(_) => Err(AppError::CookieAppendError),
    }
}

/// The cookie value handed out at login is read back as the same token by
/// the check of the `Authorization` header.
pub proof fn lemma_token_cookie_round_trip(token: Seq<char>)
    ensures
        has_prefix(token_cookie_text(token), bearer_prefix()),
        token_cookie_text(token).subrange(
            bearer_prefix().len() as int,
            token_cookie_text(token).len() as int,
        ) == token,
{
    let v = token_cookie_text(token);
    assert(v.subrange(0, bearer_prefix().len() as int) =~= bearer_prefix());
    assert(v.subrange(bearer_prefix().len() as int, v.len() as int) =~= token);
}

} // verus!
