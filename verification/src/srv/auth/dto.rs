//! Requests and answers of the authentication service.

use vstd::prelude::*;

verus! {

/// Body of a registration request.
pub struct ReqRegisterUser {
    pub username: String,
    pub password: String,
}

/// Body of a login request.
pub struct ReqUserLogin {
    pub username: String,
    pub password: String,
}

/// A token and the scheme it is used with.
pub struct RspToken {
    pub token_type: String,
    pub token: String,
}

impl RspToken {
    /// The answer that carries a bearer token.
    pub fn bearer(token: String) -> (res: RspToken)
        ensures
            res.token_type@ == "Bearer"@,
            res.token@ == token@,
    {
        RspToken { token_type: "Bearer".to_owned(), token }
    }
}

} // verus!
