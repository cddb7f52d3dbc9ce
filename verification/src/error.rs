//! The error values handed back to HTTP handlers.

use vstd::prelude::*;

verus! {

/// HTTP error kinds with a fixed status code.
#[derive(Debug, Clone, Copy, PartialEq, Eq, Structural)]
pub enum HttpError {
    BadRequest,
    Unauthorized,
    Forbidden,
    NotFound,
    Conflict,
    InternalServerError,
}

/// The numeric HTTP status of an error kind.
pub open spec fn http_status(e: HttpError) -> u16 {
    match e {
        HttpError::BadRequest => 400,
        HttpError::Unauthorized => 401,
        HttpError::Forbidden => 403,
        HttpError::NotFound => 404,
        HttpError::Conflict => 409,
        HttpError::InternalServerError => 500,
    }
}

impl HttpError {
    /// The numeric HTTP status of this kind.
    pub fn status_code(&self) -> (r: u16)
        ensures
            r == http_status(*self),
    {
        match self {
            HttpError::BadRequest => 400,
            HttpError::Unauthorized => 401,
            HttpError::Forbidden => 403,
            HttpError::NotFound => 404,
            HttpError::Conflict => 409,
            HttpError::InternalServerError => 500,
        }
    }

    /// This kind, with a message for the client.
    pub fn with_message(self, message: String) -> (r: Error)
        ensures
            r == Error::Message(self, message),
    {
        Error::Message(self, message)
    }
}

/// A failed request: an HTTP error kind, optionally with a message, an
/// internal failure, or field validation messages.
#[derive(Debug, Clone)]
pub enum Error {
    Http(HttpError),
    Message(HttpError, String),
    Internal(String),
    Validation(Vec<(String, Vec<String>)>),
}

/// The numeric HTTP status of an error; validation failures answer 422.
pub open spec fn error_status(e: Error) -> u16 {
    match e {
        Error::Http(k) => http_status(k),
        Error::Message(k, _) => http_status(k),
        Error::Internal(_) => 500,
        Error::Validation(_) => 422,
    }
}

/// Each kind answers with its standard status code, no two kinds share one,
/// and every error status is a client error (4xx) or a server error (5xx).
pub proof fn lemma_status_codes(e: Error)
    ensures
        http_status(HttpError::BadRequest) == 400,
        http_status(HttpError::Unauthorized) == 401,
        http_status(HttpError::Forbidden) == 403,
        http_status(HttpError::NotFound) == 404,
        http_status(HttpError::Conflict) == 409,
        http_status(HttpError::InternalServerError) == 500,
        forall|a: HttpError, b: HttpError| #[trigger] http_status(a) == #[trigger] http_status(b)
            ==> a == b,
        400 <= error_status(e) < 600,
{
}

impl Error {
    /// An internal server error carrying `message`.
    pub fn internal(message: String) -> (r: Error)
        ensures
            r == Error::Internal(message),
    {
        Error::Internal(message)
    }

    /// The numeric HTTP status of this error.
    pub fn status_code(&self) -> (r: u16)
        ensures
            r == error_status(*self),
    {
        match self {
            Error::Http(k) => k.status_code(),
            Error::Message(k, _) => k.status_code(),
            Error::Internal(_) => 500,
            Error::Validation(_) => 422,
        }
    }
}

} // verus!
