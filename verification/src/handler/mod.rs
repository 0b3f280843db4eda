//! The HTTP layer: how service outcomes become statuses and error bodies, and
//! the checks a handler makes before it calls the service.

pub mod auth;
pub mod channel;
pub mod message;
pub mod middleware;
pub mod resource;
pub mod user;

use vstd::prelude::*;

use crate::dto::ErrorResponse;
use crate::service::{service_error_text, ServiceError};

verus! {

pub const STATUS_OK: u16 = 200;
pub const STATUS_CREATED: u16 = 201;
pub const STATUS_NO_CONTENT: u16 = 204;
pub const STATUS_BAD_REQUEST: u16 = 400;
pub const STATUS_UNAUTHORIZED: u16 = 401;
pub const STATUS_FORBIDDEN: u16 = 403;
pub const STATUS_NOT_FOUND: u16 = 404;
pub const STATUS_CONFLICT: u16 = 409;
pub const STATUS_INTERNAL_SERVER_ERROR: u16 = 500;

/// Errors answered by the HTTP layer.
pub enum AppError {
    /// A service error with the status it is answered with and its text.
    ServiceError(u16, String),
    TokenGenerationFailure,
    CookieAppendError,
    /// A malformed multipart body; keeps the parser's message.
    MultiPartParseError(String),
    UnknownError(String),
}

/// The status with which each service error is answered.
pub open spec fn service_error_status(e: ServiceError) -> u16 {
    match e {
        ServiceError::EmailOrUsernameConflict => STATUS_CONFLICT,
        ServiceError::UserNotFound => STATUS_NOT_FOUND,
        ServiceError::PasswordMismatch => STATUS_UNAUTHORIZED,
        ServiceError::PasswordHashError(_) => STATUS_BAD_REQUEST,
        ServiceError::InvalidChannelType => STATUS_BAD_REQUEST,
        ServiceError::InvalidChannelMemberNumber => STATUS_BAD_REQUEST,
        ServiceError::ChannelCreationFailure => STATUS_INTERNAL_SERVER_ERROR,
        ServiceError::NonexistingChannel => STATUS_NOT_FOUND,
        ServiceError::UserAlreadyInChannel => STATUS_CONFLICT,
        ServiceError::UserNotInChannel => STATUS_BAD_REQUEST,
        ServiceError::CacheError(_) => STATUS_INTERNAL_SERVER_ERROR,
        ServiceError::SerdeJsonError(_) => STATUS_INTERNAL_SERVER_ERROR,
        ServiceError::BlockingJoinError(_) => STATUS_INTERNAL_SERVER_ERROR,
        ServiceError::StdIoError(_) => STATUS_INTERNAL_SERVER_ERROR,
        ServiceError::ResourceUploadError(_) => STATUS_INTERNAL_SERVER_ERROR,
        ServiceError::ResourceMultipartError(_) => STATUS_BAD_REQUEST,
        ServiceError::DbPoolError(_) => STATUS_INTERNAL_SERVER_ERROR,
        ServiceError::DatabaseError(_) => STATUS_INTERNAL_SERVER_ERROR,
    }
}

/// The status of an application error.
pub open spec fn app_error_status(e: AppError) -> u16 {
    match e {
        AppError::ServiceError(status, _) => status,
        AppError::TokenGenerationFailure => STATUS_INTERNAL_SERVER_ERROR,
        AppError::CookieAppendError => STATUS_INTERNAL_SERVER_ERROR,
        AppError::MultiPartParseError(_) => STATUS_BAD_REQUEST,
        AppError::UnknownError(_) => STATUS_INTERNAL_SERVER_ERROR,
    }
}

/// The message a client is shown for an application error. Internal
/// failures of the service are not described to clients.
pub open spec fn app_error_client_message(e: AppError) -> Seq<char> {
    match e {
        AppError::ServiceError(status, msg) => if status == STATUS_INTERNAL_SERVER_ERROR {
            "Internal server error occuerrd."@
        } else {
            msg@
        },
        AppError::TokenGenerationFailure => "Failed to generate authentication token."@,
        AppError::CookieAppendError => "Failed to parse cookie."@,
        AppError::MultiPartParseError(_) => "Failed to parse multipart form data: {}"@,
        AppError::UnknownError(_) => "An unknown error occurred."@,
    }
}

impl AppError {
    /// The application error for a service error: its status and its text.
    pub fn from_service_error(err: ServiceError) -> (res: AppError)
        ensures
            res matches AppError::ServiceError(status, msg) && status == service_error_status(err)
                && msg@ == service_error_text(err),
    {
        let msg = err.to_text();
        let status = match err {
            ServiceError::EmailOrUsernameConflict => STATUS_CONFLICT,
            ServiceError::UserNotFound => STATUS_NOT_FOUND,
            ServiceError::PasswordMismatch => STATUS_UNAUTHORIZED,
            ServiceError::PasswordHashError(_) => STATUS_BAD_REQUEST,
            ServiceError::InvalidChannelType => STATUS_BAD_REQUEST,
            ServiceError::InvalidChannelMemberNumber => STATUS_BAD_REQUEST,
            ServiceError::ChannelCreationFailure => STATUS_INTERNAL_SERVER_ERROR,
            ServiceError::NonexistingChannel => STATUS_NOT_FOUND,
            ServiceError::UserAlreadyInChannel => STATUS_CONFLICT,
            ServiceError::UserNotInChannel => STATUS_BAD_REQUEST,
            ServiceError::CacheError(_) => STATUS_INTERNAL_SERVER_ERROR,
            ServiceError::SerdeJsonError(_) => STATUS_INTERNAL_SERVER_ERROR,
            ServiceError::BlockingJoinError(_) => STATUS_INTERNAL_SERVER_ERROR,
            ServiceError::StdIoError(_) => STATUS_INTERNAL_SERVER_ERROR,
            ServiceError::ResourceUploadError(_) => STATUS_INTERNAL_SERVER_ERROR,
            ServiceError::ResourceMultipartError(_) => STATUS_BAD_REQUEST,
            ServiceError::DbPoolError(_) => STATUS_INTERNAL_SERVER_ERROR,
            ServiceError::DatabaseError(_) => STATUS_INTERNAL_SERVER_ERROR,
        };
        AppError::ServiceError(status, msg)
    }

    /// The HTTP status this error is answered with.
    pub fn status(&self) -> (res: u16)
        ensures
            res == app_error_status(*self),
    {
        match self {
            AppError::ServiceError(status, _) => *status,
            AppError::TokenGenerationFailure => STATUS_INTERNAL_SERVER_ERROR,
            AppError::CookieAppendError => STATUS_INTERNAL_SERVER_ERROR,
            AppError::MultiPartParseError(_) => STATUS_BAD_REQUEST,
            AppError::UnknownError(_) => STATUS_INTERNAL_SERVER_ERROR,
        }
    }

    /// The body of the answer to this error: its status and the message
    /// shown to the client.
    pub fn into_error_response(self) -> (res: ErrorResponse)
        ensures
            res.code == app_error_status(self),
            res.message@ == app_error_client_message(self),
    {
        let code = self.status();
        let message = match self {
            AppError::ServiceError(status, msg) => {
                if status == STATUS_INTERNAL_SERVER_ERROR {
                    "Internal server error occuerrd.".to_owned()
                } else {
                    msg
                }
            },
            AppError::TokenGenerationFailure => "Failed to generate authentication token.".to_owned(),
            AppError::CookieAppendError => "Failed to parse cookie.".to_owned(),
            AppError::MultiPartParseError(_) => "Failed to parse multipart form data: {}".to_owned(),
            AppError::UnknownError(_) => "An unknown error occurred.".to_owned(),
        };
        ErrorResponse { code, message }
    }
}

/// Every service error is answered with a client-error or server-error
/// status.
pub proof fn lemma_service_errors_answer_with_error_status(e: ServiceError)
    ensures
        400 <= service_error_status(e) < 600,
{
}

/// A service error answered with status 500 never shows its own text to the
/// client; any other service error shows exactly its text.
pub proof fn lemma_internal_service_errors_are_hidden(e: ServiceError, msg: String)
    requires
        msg@ == service_error_text(e),
    ensures
        service_error_status(e) == STATUS_INTERNAL_SERVER_ERROR ==> app_error_client_message(
            AppError::ServiceError(service_error_status(e), msg),
        ) == "Internal server error occuerrd."@,
        service_error_status(e) != STATUS_INTERNAL_SERVER_ERROR ==> app_error_client_message(
            AppError::ServiceError(service_error_status(e), msg),
        ) == service_error_text(e),
{
}

} // verus!
