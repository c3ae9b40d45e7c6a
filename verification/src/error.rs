use vstd::prelude::*;

verus! {

/// The errors that the service answers a request with.
#[derive(Debug, Clone, Copy, PartialEq, Eq, Structural)]
pub enum AppError {
    BadRequest,
    Internal,
    NotFound,
    Timeout,
}

impl AppError {
    /// The human-readable text of the error.
    pub open spec fn message_text(self) -> Seq<char> {
        match self {
            AppError::BadRequest => "Invalid Input provided"@,
            AppError::Internal => "Internal Server Error"@,
            AppError::NotFound => "Not found"@,
            AppError::Timeout => "Request timeout"@,
        }
    }

    /// The HTTP status that answers the error.
    pub open spec fn status(self) -> u16 {
        match self {
            AppError::BadRequest => 400,
            AppError::Internal => 500,
            AppError::NotFound => 404,
            AppError::Timeout => 504,
        }
    }

    /// The text shown to clients for this error.
    pub fn message(&self) -> (m: &'static str)
        ensures
            m@ == self.message_text(),
    {
        match self {
            AppError::BadRequest => "Invalid Input provided",
            AppError::Internal => "Internal Server Error",
            AppError::NotFound => "Not found",
            AppError::Timeout => "Request timeout",
        }
    }

    /// The HTTP status code of the response for this error.
    pub fn status_code(&self) -> (code: u16)
        ensures
            code == self.status(),
    {
        match self {
            AppError::BadRequest => 400,
            AppError::Internal => 500,
            AppError::NotFound => 404,
            AppError::Timeout => 504,
        }
    }
}

} // verus!
