//! The error taxonomy shared by every handler, and its HTTP statuses.

use vstd::prelude::*;

verus! {

/// Status of a successful response.
pub const STATUS_OK: u16 = 200;

/// Why a request was not answered with its payload.
#[derive(Clone, Copy, Debug, PartialEq, Eq, Structural)]
pub enum ApiError {
    /// The request is malformed: an identifier that does not parse, or a page
    /// size over the ceiling.
    BadRequest,
    /// The resource asked for does not exist.
    NotFound,
    /// No storage connection was free.
    Timeout,
    /// The storage backend failed in any other way.
    InternalError,
}

impl ApiError {
    /// The HTTP status that stands for this error.
    pub open spec fn status(self) -> u16 {
        match self {
            ApiError::BadRequest => 400,
            ApiError::NotFound => 404,
            ApiError::Timeout => 408,
            ApiError::InternalError => 500,
        }
    }

    /// The HTTP status that stands for this error.
    pub fn status_code(&self) -> (code: u16)
        ensures
            code == self.status(),
    {
        match self {
            ApiError::BadRequest => 400,
            ApiError::NotFound => 404,
            ApiError::Timeout => 408,
            ApiError::InternalError => 500,
        }
    }
}

/// The HTTP status of a handler's outcome.
pub open spec fn status_of<T>(outcome: Result<T, ApiError>) -> u16 {
    match outcome {
        Ok(_) => STATUS_OK,
        Err(error) => error.status(),
    }
}

/// The HTTP status of a handler's outcome: 200 for a payload, else the
/// status of the error.
pub fn response_status<T>(outcome: &Result<T, ApiError>) -> (code: u16)
    ensures
        code == status_of(*outcome),
{
    match outcome {
        Ok(_) => STATUS_OK,
        Err(error) => error.status_code(),
    }
}

/// The status tells the four errors and success apart.
pub proof fn law_statuses_are_distinct(a: ApiError, b: ApiError)
    ensures
        a.status() != STATUS_OK,
        a.status() == b.status() ==> a == b,
{
}

} // verus!
