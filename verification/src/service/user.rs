//! Users: registration, login, profile changes and lookups.

use vstd::prelude::*;

use crate::dto::{ReqPatchUser, ReqRegisterUser, RspUserInfo};
use crate::model::{opt_view, NewUser, UserInfo};
use crate::password::{all_ascii, bcrypt_hash, bcrypt_verify, bcrypt_verify_outcome};
use crate::service::{DbError, ServiceError};
use crate::util::{generate_id, is_hyphenated_uuid};

verus! {

/// A change to a user's row: the fields to set, the password already hashed.
pub struct UserPatch {
    pub user_id: String,
    pub username: Option<String>,
    pub email: Option<String>,
    pub password_hash: Option<String>,
}

/// `user` is a row for the registration `req`: a fresh id, the given name and
/// email, and a hash of 60 ASCII characters that the given password matches.
pub open spec fn is_registration_of(req: ReqRegisterUser, user: NewUser) -> bool {
    &&& is_hyphenated_uuid(user.id@)
    &&& user.username@ == req.username@
    &&& user.email@ == req.email@
    &&& user.password_hash@.len() == 60 && all_ascii(user.password_hash@)
    &&& bcrypt_verify_outcome(req.password@, user.password_hash@) == Some(true)
}

/// The row to insert for a registration, from the id chosen for it and the
/// outcome of hashing the password: the hash on success, else the hashing
/// error with its text.
pub fn registration_row(req: ReqRegisterUser, id: String, hashed: Result<String, String>) -> (res: Result<
    NewUser,
    ServiceError,
>)
    ensures
        match hashed {
            Ok(h) => res matches Ok(user) && user.id@ == id@ && user.username@ == req.username@
                && user.email@ == req.email@ && user.password_hash@ == h@,
            Err(m) => res matches Err(ServiceError::PasswordHashError(e)) && e@ == m@,
        },
{
    match hashed {
        Ok(h) => Ok(NewUser { id, username: req.username, email: req.email, password_hash: h }),
        Err(m) => Err(ServiceError::PasswordHashError(m)),
    }
}

/// The row to insert for a registration: a fresh id and the hash of the
/// password. Fails only when hashing fails.
pub fn register_user(req: ReqRegisterUser) -> (res: Result<NewUser, ServiceError>)
    ensures
        match res {
            Ok(user) => is_registration_of(req, user),
            Err(e) => e is PasswordHashError,
        },
{
    let hashed = bcrypt_hash(req.password.as_str());
    let id = generate_id();
    registration_row(req, id, hashed)
}

/// A user as shown to clients.
pub fn user_to_rsp(user: UserInfo) -> (res: RspUserInfo)
    ensures
        res.id@ == user.id@,
        res.username@ == user.username@,
        res.email@ == user.email@,
        res.created_at@ == user.created_at@,
{
    RspUserInfo {
        id: user.id,
        username: user.username,
        email: user.email,
        created_at: user.created_at,
    }
}

/// The answer to a registration, from the outcome of inserting the row: a
/// duplicate name or email is a conflict.
pub fn registration_outcome(inserted: Result<UserInfo, DbError>) -> (res: Result<
    RspUserInfo,
    ServiceError,
>)
    ensures
        match inserted {
            Ok(u) => res matches Ok(r) && r.id@ == u.id@ && r.username@ == u.username@
                && r.email@ == u.email@ && r.created_at@ == u.created_at@,
            Err(DbError::UniqueViolation(_)) => res matches Err(ServiceError::EmailOrUsernameConflict),
            Err(e) => res matches Err(ServiceError::DatabaseError(m)) && m@ == e.text(),
        },
{
    match inserted {
        Ok(u) => Ok(user_to_rsp(u)),
        Err(DbError::UniqueViolation(_)) => Err(ServiceError::EmailOrUsernameConflict),
        Err(e) => Err(ServiceError::DatabaseError(e.into_text())),
    }
}

/// The answer to a lookup of one user: a missing row is an unknown user.
pub fn user_lookup_outcome(found: Result<UserInfo, DbError>) -> (res: Result<RspUserInfo, ServiceError>)
    ensures
        match found {
            Ok(u) => res matches Ok(r) && r.id@ == u.id@ && r.username@ == u.username@
                && r.email@ == u.email@ && r.created_at@ == u.created_at@,
            Err(DbError::NotFound(_)) => res matches Err(ServiceError::UserNotFound),
            Err(e) => res matches Err(ServiceError::DatabaseError(m)) && m@ == e.text(),
        },
{
    match found {
        Ok(u) => Ok(user_to_rsp(u)),
        Err(DbError::NotFound(_)) => Err(ServiceError::UserNotFound),
        Err(e) => Err(ServiceError::DatabaseError(e.into_text())),
    }
}

/// Checks a login password against the stored hash found for the user name:
/// an unknown name, a wrong password and an unreadable hash each have their
/// error; the login goes on exactly when the password matches.
pub fn check_login(password: &str, stored_hash: Result<String, DbError>) -> (res: Result<
    (),
    ServiceError,
>)
    ensures
        match stored_hash {
            Ok(h) => {
                &&& (res is Ok <==> bcrypt_verify_outcome(password@, h@) == Some(true))
                &&& (res matches Err(ServiceError::PasswordMismatch) <==> bcrypt_verify_outcome(
                    password@,
                    h@,
                ) == Some(false))
                &&& (res matches Err(ServiceError::PasswordHashError(_))
                    <==> bcrypt_verify_outcome(password@, h@) is None)
            },
            Err(DbError::NotFound(_)) => res matches Err(ServiceError::UserNotFound),
            Err(e) => res matches Err(ServiceError::DatabaseError(m)) && m@ == e.text(),
        },
{
    let hash = match stored_hash {
        Ok(h) => h,
        Err(DbError::NotFound(_)) => {
            return Err(ServiceError::UserNotFound);
        },
        Err(e) => {
            return Err(ServiceError::DatabaseError(e.into_text()));
        },
    };
    match bcrypt_verify(password, hash.as_str()) {
        Ok(true) => Ok(()),
        Ok(false) => Err(ServiceError::PasswordMismatch),
        Err(msg) => Err(ServiceError::PasswordHashError(msg)),
    }
}

/// A user that registered can log in with the same password: the hash
/// stored for the registration is one that the password matches.
pub proof fn lemma_registered_password_matches(req: ReqRegisterUser, user: NewUser)
    requires
        is_registration_of(req, user),
    ensures
        bcrypt_verify_outcome(req.password@, user.password_hash@) == Some(true),
{
}

/// The hash stored for a registration is never the password itself, unless
/// the password is exactly 60 ASCII characters long.
pub proof fn lemma_stored_hash_is_not_the_password(req: ReqRegisterUser, user: NewUser)
    requires
        is_registration_of(req, user),
        req.password@.len() != 60,
    ensures
        user.password_hash@ != req.password@,
{
}

/// The change to apply for a profile update, from the outcome of hashing the
/// new password when one was given: name and email as given, the hash on
/// success, else the hashing error with its text.
pub fn user_patch(req: ReqPatchUser, hashed: Option<Result<String, String>>) -> (res: Result<
    UserPatch,
    ServiceError,
>)
    ensures
        match hashed {
            Some(Err(m)) => res matches Err(ServiceError::PasswordHashError(e)) && e@ == m@,
            _ => res matches Ok(p) && p.user_id@ == req.user_id@ && opt_view(p.username) == opt_view(
                req.username,
            ) && opt_view(p.email) == opt_view(req.email) && opt_view(p.password_hash) == match hashed {
                Some(Ok(h)) => Some(h@),
                _ => None::<Seq<char>>,
            },
        },
{
    let password_hash = match hashed {
        Some(Ok(h)) => Some(h),
        Some(Err(m)) => {
            return Err(ServiceError::PasswordHashError(m));
        },
        None => None,
    };
    Ok(UserPatch { user_id: req.user_id, username: req.username, email: req.email, password_hash })
}

/// The change to apply for a profile update: name and email as given, the
/// new password hashed. Fails only when hashing fails.
pub fn patch_user(req: ReqPatchUser) -> (res: Result<UserPatch, ServiceError>)
    ensures
        match res {
            Ok(p) => {
                &&& p.user_id@ == req.user_id@
                &&& opt_view(p.username) == opt_view(req.username)
                &&& opt_view(p.email) == opt_view(req.email)
                &&& (p.password_hash is Some <==> req.password is Some)
                &&& (req.password matches Some(pw) ==> bcrypt_verify_outcome(
                    pw@,
                    p.password_hash->Some_0@,
                ) == Some(true) && p.password_hash->Some_0@.len() == 60 && all_ascii(
                    p.password_hash->Some_0@,
                ))
            },
            Err(e) => req.password is Some && e is PasswordHashError,
        },
{
    let hashed = match &req.password {
        Some(pw) => Some(bcrypt_hash(pw.as_str())),
        None => None,
    };
    user_patch(req, hashed)
}

/// The answer to a profile update, from the outcome of the update: a missing
/// row is an unknown user, a duplicate name or email is a conflict.
pub fn patch_outcome(updated: Result<usize, DbError>) -> (res: Result<(), ServiceError>)
    ensures
        match updated {
            Ok(_) => res is Ok,
            Err(DbError::NotFound(_)) => res matches Err(ServiceError::UserNotFound),
            Err(DbError::UniqueViolation(_)) => res matches Err(ServiceError::EmailOrUsernameConflict),
            Err(e) => res matches Err(ServiceError::DatabaseError(m)) && m@ == e.text(),
        },
{
    match updated {
        Ok(_) => Ok(()),
        Err(DbError::NotFound(_)) => Err(ServiceError::UserNotFound),
        Err(DbError::UniqueViolation(_)) => Err(ServiceError::EmailOrUsernameConflict),
        Err(e) => Err(ServiceError::DatabaseError(e.into_text())),
    }
}

} // verus!
