//! The two-layer error taxonomy: storage-facing failures reported by a
//! repository, and the protocol-facing kinds the handlers surface, each with
//! its HTTP status.

use vstd::prelude::*;

verus! {

/// A storage-facing failure reported by a repository implementation.
#[derive(Clone, Copy, PartialEq, Eq, Structural, Debug)]
pub enum RepoError {
    NotFound,
    ConnectionError,
    Other,
}

impl RepoError {
    /// The failure's display text: its bare variant name.
    pub fn message(&self) -> (r: &'static str)
        ensures
            self is NotFound ==> r@ == "NotFound"@,
            self is ConnectionError ==> r@ == "ConnectionError"@,
            self is Other ==> r@ == "Other"@,
    {
        match self {
            RepoError::NotFound => "NotFound",
            RepoError::ConnectionError => "ConnectionError",
            RepoError::Other => "Other",
        }
    }
}

/// A protocol-facing error kind surfaced by a handler.
#[derive(Clone, Copy, PartialEq, Eq, Structural, Debug)]
pub enum ApiError {
    /// The resource exists but does not belong to the requesting customer.
    Unauthorized,
    /// The requested resource is absent (direct get-by-id lookups only).
    NotFound,
    /// A server-side defensive invariant was violated.
    BadRequest,
    /// A storage failure not classified above, or a failure of the execution
    /// boundary itself.
    InternalError,
}

impl ApiError {
    /// The HTTP status the error kind surfaces as.
    pub fn status_code(&self) -> (r: u16)
        ensures
            self is Unauthorized ==> r == 401,
            self is NotFound ==> r == 404,
            self is BadRequest ==> r == 400,
            self is InternalError ==> r == 500,
    {
        match self {
            ApiError::Unauthorized => 401,
            ApiError::NotFound => 404,
            ApiError::BadRequest => 400,
            ApiError::InternalError => 500,
        }
    }

    /// The error's display text: its bare variant name.
    pub fn message(&self) -> (r: &'static str)
        ensures
            self is Unauthorized ==> r@ == "Unauthorized"@,
            self is NotFound ==> r@ == "NotFound"@,
            self is BadRequest ==> r@ == "BadRequest"@,
            self is InternalError ==> r@ == "InternalError"@,
    {
        match self {
            ApiError::Unauthorized => "Unauthorized",
            ApiError::NotFound => "NotFound",
            ApiError::BadRequest => "BadRequest",
            ApiError::InternalError => "InternalError",
        }
    }

    /// The error raised when the execution boundary itself fails: a blocking
    /// repository call that could not be scheduled or joined is reported as a
    /// server fault, kept distinct from a storage-reported error.
    pub fn boundary_failure() -> (r: ApiError)
        ensures
            r is InternalError,
    {
        ApiError::InternalError
    }
}

/// A plain-text error reply: a status and the exact body the protocol fixes.
#[derive(Clone, PartialEq, Eq, Debug)]
pub struct ErrorResponse {
    pub status: u16,
    pub body: String,
}

/// The error surface of the account lookup boundary: entity absence or a
/// server fault, each with a fixed plain-text body.
#[derive(Clone, Copy, PartialEq, Eq, Structural, Debug)]
pub enum AccountsApiError {
    NotFound,
    InternalError,
}

impl AccountsApiError {
    /// The HTTP status the error surfaces as.
    pub fn status_code(&self) -> (r: u16)
        ensures
            self is NotFound ==> r == 404,
            self is InternalError ==> r == 500,
    {
        match self {
            AccountsApiError::NotFound => 404,
            AccountsApiError::InternalError => 500,
        }
    }

    /// The full reply for the error: its status and the exact body text,
    /// part of the protocol contract.
    pub fn error_response(&self) -> (r: ErrorResponse)
        ensures
            self is NotFound ==> r.status == 404 && r.body@ == "Entity not found"@,
            self is InternalError ==> r.status == 500 && r.body@ == "Internal server error"@,
    {
        match self {
            AccountsApiError::NotFound => ErrorResponse {
                status: 404,
                body: "Entity not found".to_owned(),
            },
            AccountsApiError::InternalError => ErrorResponse {
                status: 500,
                body: "Internal server error".to_owned(),
            },
        }
    }

    /// The error's display text: its bare variant name.
    pub fn message(&self) -> (r: &'static str)
        ensures
            self is NotFound ==> r@ == "NotFound"@,
            self is InternalError ==> r@ == "InternalError"@,
    {
        match self {
            AccountsApiError::NotFound => "NotFound",
            AccountsApiError::InternalError => "InternalError",
        }
    }
}

} // verus!
