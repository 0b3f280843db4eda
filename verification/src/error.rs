//! The error of the service's first interface, answered without details.

use vstd::prelude::*;

use crate::dto::ErrorResponse;
use crate::handler::STATUS_INTERNAL_SERVER_ERROR;

verus! {

/// An error answered with status 500.
pub enum AppError {
    UnknownError(String),
}

impl AppError {
    /// The HTTP status this error is answered with.
    pub fn status(&self) -> (res: u16)
        ensures
            res == STATUS_INTERNAL_SERVER_ERROR,
    {
        match self {
            AppError::UnknownError(_) => STATUS_INTERNAL_SERVER_ERROR,
        }
    }

    /// The body of the answer: status 500 and a message that does not show
    /// the error's own text.
    pub fn into_error_response(self) -> (res: ErrorResponse)
        ensures
            res.code == STATUS_INTERNAL_SERVER_ERROR,
            res.message@ == "An unknown error occurred."@,
    {
        let code = self.status();
        ErrorResponse { code, message: "An unknown error occurred.".to_owned() }
    }
}

} // verus!
