//! The application's error type: an HTTP-facing kind and a message.

use vstd::prelude::*;

verus! {

/// What went wrong, as the HTTP layer reports it.
#[derive(Clone, Copy, Debug, PartialEq, Eq, Structural)]
pub enum ErrorKind {
    BadRequest,
    Unauthorized,
    Forbidden,
    Internal,
}

/// An error carried up to the HTTP layer: its kind and a human-readable message.
#[derive(Debug)]
pub struct AppError {
    pub kind: ErrorKind,
    pub message: String,
}

/// The result type of fallible application operations.
pub type AppResult<T> = Result<T, AppError>;

/// The HTTP status code of each error kind.
pub open spec fn status_of(kind: ErrorKind) -> u16 {
    match kind {
        ErrorKind::BadRequest => 400,
        ErrorKind::Unauthorized => 401,
        ErrorKind::Forbidden => 403,
        ErrorKind::Internal => 500,
    }
}

impl AppError {
    /// A 400 error.
    pub fn bad_request(message: &str) -> (e: AppError)
        ensures
            e.kind == ErrorKind::BadRequest,
            e.message@ == message@,
    {
        AppError { kind: ErrorKind::BadRequest, message: message.to_owned() }
    }

    /// A 401 error.
    pub fn unauthorized(message: &str) -> (e: AppError)
        ensures
            e.kind == ErrorKind::Unauthorized,
            e.message@ == message@,
    {
        AppError { kind: ErrorKind::Unauthorized, message: message.to_owned() }
    }

    /// A 403 error.
    pub fn forbidden(message: &str) -> (e: AppError)
        ensures
            e.kind == ErrorKind::Forbidden,
            e.message@ == message@,
    {
        AppError { kind: ErrorKind::Forbidden, message: message.to_owned() }
    }

    /// A 500 error.
    pub fn internal(message: String) -> (e: AppError)
        ensures
            e.kind == ErrorKind::Internal,
            e.message@ == message@,
    {
        AppError { kind: ErrorKind::Internal, message }
    }

    /// The message shown to the user.
    pub fn message(&self) -> (m: &str)
        ensures
            m@ == self.message@,
    {
        self.message.as_str()
    }

    /// The HTTP status code this error is answered with.
    pub fn status(&self) -> (code: u16)
        ensures
            code == status_of(self.kind),
    {
        match self.kind {
            ErrorKind::BadRequest => 400,
            ErrorKind::Unauthorized => 401,
            ErrorKind::Forbidden => 403,
            ErrorKind::Internal => 500,
        }
    }
}

} // verus!
