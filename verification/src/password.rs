//! Password hashing with bcrypt.

use vstd::prelude::*;

verus! {

/// Whether every character is ASCII.
pub open spec fn all_ascii(s: Seq<char>) -> bool {
    forall|i: int| 0 <= i < s.len() ==> (#[trigger] s[i] as u32) < 128
}

/// What `bcrypt::verify` answers for a password and a stored hash: `None`
/// when it fails, else whether the password matches the hash.
pub uninterp spec fn bcrypt_verify_outcome(password: Seq<char>, hash: Seq<char>) -> Option<bool>;

/// Calls `bcrypt::verify`. Its answer is named by `bcrypt_verify_outcome`;
/// the source rejects any hash that is not exactly 60 ASCII bytes. The
/// error's text is passed on as it is.
#[verifier::external_body]
pub(crate) fn bcrypt_verify(password: &str, hash: &str) -> (res: Result<bool, String>)
    ensures
        match res {
            Ok(b) => bcrypt_verify_outcome(password@, hash@) == Some(b),
            Err(_) => bcrypt_verify_outcome(password@, hash@) is None,
        },
        !(all_ascii(hash@) && hash@.len() == 60) ==> res is Err,
{
    match bcrypt::verify(password, hash) {
        Ok(b) => Ok(b),
        Err(e) => Err(e.to_string()),
    }
}

/// Calls `bcrypt::hash` with `bcrypt::DEFAULT_COST`. The salt is random, so
/// the text is not named. The source shows that a hash is 60 ASCII
/// characters, and that `bcrypt::verify` recomputes it from the same cost and
/// salt, so it accepts the same password against it. When the hash fails
/// (the random source failed), the error's text is passed on.
#[verifier::external_body]
pub(crate) fn bcrypt_hash(password: &str) -> (res: Result<String, String>)
    ensures
        res matches Ok(h) ==> h@.len() == 60 && all_ascii(h@) && bcrypt_verify_outcome(
            password@,
            h@,
        ) == Some(true),
{
    match bcrypt::hash(password, bcrypt::DEFAULT_COST) {
        Ok(h) => Ok(h),
        Err(e) => Err(e.to_string()),
    }
}

} // verus!
