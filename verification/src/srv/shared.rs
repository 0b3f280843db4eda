//! Rows shared by the split services.

use vstd::prelude::*;

verus! {

/// A user row to insert, as the authentication service writes it.
pub struct NewUser {
    pub id: String,
    pub username: String,
    pub password_hash: String,
}

/// The claims of a token issued by the split services: the subject in JSON
/// form, the expiry and the time of issue.
pub struct JwtClaims {
    pub sub: String,
    pub exp: usize,
    pub iat: usize,
}

/// The claims for a subject: its JSON text, the time of issue (seconds since
/// the Unix epoch) and the expiry, the given lifetime in seconds after the
/// time of issue. An expiry past the largest `usize` is held at that value.
pub fn jwt_claims(subject_json: String, lifetime: usize, now: i64) -> (res: JwtClaims)
    ensures
        res.sub@ == subject_json@,
        res.iat == now as usize,
        res.exp == if now as usize + lifetime <= usize::MAX {
            (now as usize + lifetime) as usize
        } else {
            usize::MAX
        },
{
    let iat = now as usize;
    JwtClaims { sub: subject_json, exp: iat.saturating_add(lifetime), iat }
}

} // verus!
