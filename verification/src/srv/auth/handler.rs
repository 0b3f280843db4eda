//! The decisions of the authentication service's handlers.

use vstd::prelude::*;

use crate::password::{all_ascii, bcrypt_hash, bcrypt_verify, bcrypt_verify_outcome};
use crate::service::DbError;
use crate::srv::auth::dto::{ReqRegisterUser, RspToken};
use crate::srv::shared::NewUser;
use crate::util::{generate_id, is_hyphenated_uuid};

verus! {

/// Errors of the authentication service. Variants that wrap a failure of
/// another component keep that failure's text.
pub enum AppError {
    UsernameConflict,
    UsernameOrPasswordIncorrect,
    DatabaseError(String),
    DatabasePoolError(String),
    BcrypeError(String),
    TokioJoinError(String),
    JwtCodecError(String),
}

/// The body of an error answer of the authentication service.
pub struct AuthErrorBody {
    pub code: u16,
    pub error: String,
}

/// Who a token of the authentication service is for.
pub struct TokenSubject {
    pub user_id: String,
}

/// The status of an error of the authentication service.
pub open spec fn auth_error_status(e: AppError) -> u16 {
    match e {
        AppError::UsernameConflict => 409,
        AppError::UsernameOrPasswordIncorrect => 401,
        _ => 500,
    }
}

/// The message a client is shown: the two expected refusals describe
/// themselves, every other failure is an unexpected server error.
pub open spec fn auth_error_client_message(e: AppError) -> Seq<char> {
    match e {
        AppError::UsernameConflict => "Username exsiting"@,
        AppError::UsernameOrPasswordIncorrect => "Username or password incorrect"@,
        _ => "Unexpected server error"@,
    }
}

impl AppError {
    /// The body of the answer to this error.
    pub fn into_error_body(self) -> (res: AuthErrorBody)
        ensures
            res.code == auth_error_status(self),
            res.error@ == auth_error_client_message(self),
    {
        match self {
            AppError::UsernameConflict => AuthErrorBody {
                code: 409,
                error: "Username exsiting".to_owned(),
            },
            AppError::UsernameOrPasswordIncorrect => AuthErrorBody {
                code: 401,
                error: "Username or password incorrect".to_owned(),
            },
            _ => AuthErrorBody { code: 500, error: "Unexpected server error".to_owned() },
        }
    }
}

/// `user` is a row for the registration `req`: a fresh id, the given name and
/// a hash that the given password matches.
pub open spec fn is_registration_of(req: ReqRegisterUser, user: NewUser) -> bool {
    &&& is_hyphenated_uuid(user.id@)
    &&& user.username@ == req.username@
    &&& user.password_hash@.len() == 60 && all_ascii(user.password_hash@)
    &&& bcrypt_verify_outcome(req.password@, user.password_hash@) == Some(true)
}

/// The row to insert for a registration, from the id chosen for it and the
/// outcome of hashing the password: the hash on success, else the hashing
/// error with its text.
pub fn registration_row(req: ReqRegisterUser, id: String, hashed: Result<String, String>) -> (res: Result<
    NewUser,
    AppError,
>)
    ensures
        match hashed {
            Ok(h) => res matches Ok(user) && user.id@ == id@ && user.username@ == req.username@
                && user.password_hash@ == h@,
            Err(m) => res matches Err(AppError::BcrypeError(e)) && e@ == m@,
        },
{
    match hashed {
        Ok(h) => Ok(NewUser { id, username: req.username, password_hash: h }),
        Err(m) => Err(AppError::BcrypeError(m)),
    }
}

/// The row to insert for a registration. Fails only when hashing fails.
pub fn register_user(req: ReqRegisterUser) -> (res: Result<NewUser, AppError>)
    ensures
        match res {
            Ok(user) => is_registration_of(req, user),
            Err(e) => e is BcrypeError,
        },
{
    let hashed = bcrypt_hash(req.password.as_str());
    let id = generate_id();
    registration_row(req, id, hashed)
}

/// The outcome of inserting a new user: a duplicate name is a conflict.
pub fn registration_outcome(inserted: Result<usize, DbError>) -> (res: Result<(), AppError>)
    ensures
        match inserted {
            Ok(_) => res is Ok,
            Err(DbError::UniqueViolation(_)) => res matches Err(AppError::UsernameConflict),
            Err(e) => res matches Err(AppError::DatabaseError(m)) && m@ == e.text(),
        },
{
    match inserted {
        Ok(_) => Ok(()),
        Err(DbError::UniqueViolation(_)) => Err(AppError::UsernameConflict),
        Err(e) => Err(AppError::DatabaseError(e.into_text())),
    }
}

/// Checks a login against the id and hash found for the user name: on a
/// match, the id to put in the token. An unknown name is reported as a
/// database failure; a wrong password as an incorrect name or password.
pub fn check_login(password: &str, found: Result<(String, String), DbError>) -> (res: Result<
    String,
    AppError,
>)
    ensures
        match found {
            Ok((id, hash)) => {
                &&& (res is Ok <==> bcrypt_verify_outcome(password@, hash@) == Some(true))
                &&& (res matches Ok(uid) ==> uid@ == id@)
                &&& (res matches Err(AppError::UsernameOrPasswordIncorrect)
                    <==> bcrypt_verify_outcome(password@, hash@) == Some(false))
                &&& (res matches Err(AppError::BcrypeError(_)) <==> bcrypt_verify_outcome(
                    password@,
                    hash@,
                ) is None)
            },
            Err(e) => res matches Err(AppError::DatabaseError(m)) && m@ == e.text(),
        },
{
    let (id, hash) = match found {
        Ok(pair) => pair,
        Err(e) => {
            return Err(AppError::DatabaseError(e.into_text()));
        },
    };
    match bcrypt_verify(password, hash.as_str()) {
        Ok(true) => Ok(id),
        Ok(false) => Err(AppError::UsernameOrPasswordIncorrect),
        Err(msg) => Err(AppError::BcrypeError(msg)),
    }
}


/// Where a registration stands.
#[derive(PartialEq, Eq, Structural, Clone, Copy)]
pub enum RegistrationPhase {
    /// Waiting for the new user's token.
    IssuingToken,
    /// Waiting for the new user's row to be inserted.
    Inserting,
    /// Finished.
    Done,
}

/// A registration in progress. The token is made before the row is inserted,
/// so that a user is never stored without a token handed back.
pub struct Registration {
    pub phase: RegistrationPhase,
    pub user: NewUser,
    pub token: String,
}

/// What the caller does next for a registration.
pub enum RegistrationAction {
    /// Make a token for this subject.
    IssueToken(TokenSubject),
    /// Insert the user's row.
    InsertUser(NewUser),
    /// The registration is over.
    Finish(Result<RspToken, AppError>),
}

/// The outcome of the last action of a registration.
pub enum RegistrationEvent {
    /// The token, or the text of the failure to make it.
    TokenIssued(Result<String, String>),
    /// The outcome of inserting the row.
    Inserted(Result<usize, DbError>),
}

impl Registration {
    /// Starts a registration: hashes the password and asks for a token for
    /// the new user's id. Fails only when hashing fails.
    pub fn start(req: ReqRegisterUser) -> (res: Result<(Registration, RegistrationAction), AppError>)
        ensures
            match res {
                Ok((r, a)) => {
                    &&& r.phase == RegistrationPhase::IssuingToken
                    &&& is_registration_of(req, r.user)
                    &&& a matches RegistrationAction::IssueToken(s) && s.user_id@ == r.user.id@
                },
                Err(e) => e is BcrypeError,
            },
    {
        let user = register_user(req)?;
        let subject = TokenSubject { user_id: user.id.clone() };
        Ok((
            Registration { phase: RegistrationPhase::IssuingToken, user, token: String::new() },
            RegistrationAction::IssueToken(subject),
        ))
    }

    /// Takes the outcome of the last action. A token is asked for first; the
    /// row is inserted only once the token exists; the answer carries that
    /// token, or the reason the registration failed.
    pub fn step(self, event: RegistrationEvent) -> (res: (Registration, RegistrationAction))
        requires
            self.phase == RegistrationPhase::IssuingToken ==> event is TokenIssued,
            self.phase == RegistrationPhase::Inserting ==> event is Inserted,
            self.phase != RegistrationPhase::Done,
        ensures
            res.1 is Finish <==> res.0.phase == RegistrationPhase::Done,
            res.1 is InsertUser ==> self.phase == RegistrationPhase::IssuingToken,
            self.phase == RegistrationPhase::IssuingToken ==> match event {
                RegistrationEvent::TokenIssued(Ok(t)) => {
                    &&& res.0.phase == RegistrationPhase::Inserting
                    &&& res.0.token@ == t@
                    &&& res.1 matches RegistrationAction::InsertUser(u) && u.id@ == self.user.id@
                        && u.username@ == self.user.username@ && u.password_hash@
                        == self.user.password_hash@
                },
                RegistrationEvent::TokenIssued(Err(m)) => res.1 matches RegistrationAction::Finish(
                    Err(AppError::JwtCodecError(e)),
                ) && e@ == m@,
                RegistrationEvent::Inserted(_) => false,
            },
            self.phase == RegistrationPhase::Inserting ==> match event {
                RegistrationEvent::Inserted(Ok(_)) => res.1 matches RegistrationAction::Finish(
                    Ok(t),
                ) && t.token_type@ == "Bearer"@ && t.token@ == self.token@,
                RegistrationEvent::Inserted(Err(DbError::UniqueViolation(_))) => res.1 matches RegistrationAction::Finish(
                    Err(AppError::UsernameConflict),
                ),
                RegistrationEvent::Inserted(Err(e)) => res.1 matches RegistrationAction::Finish(
                    Err(AppError::DatabaseError(m)),
                ) && m@ == e.text(),
                RegistrationEvent::TokenIssued(_) => false,
            },
    {
        let Registration { phase: _, user, token } = self;
        match event {
            RegistrationEvent::TokenIssued(issued) => match issued {
                Ok(t) => {
                    let row = NewUser {
                        id: user.id.clone(),
                        username: user.username.clone(),
                        password_hash: user.password_hash.clone(),
                    };
                    (
                        Registration { phase: RegistrationPhase::Inserting, user, token: t },
                        RegistrationAction::InsertUser(row),
                    )
                },
                Err(m) => (
                    Registration { phase: RegistrationPhase::Done, user, token },
                    RegistrationAction::Finish(Err(AppError::JwtCodecError(m))),
                ),
            },
            RegistrationEvent::Inserted(inserted) => {
                let answer = match registration_outcome(inserted) {
                    Ok(()) => Ok(RspToken::bearer(token.clone())),
                    Err(e) => Err(e),
                };
                (
                    Registration { phase: RegistrationPhase::Done, user, token },
                    RegistrationAction::Finish(answer),
                )
            },
        }
    }
}

} // verus!
