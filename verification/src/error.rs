//! The kinds of failure that a request can end in.

use vstd::prelude::*;
use crate::models::ErrorResponse;
use crate::store::StoreFailure;

verus! {

pub const BAD_REQUEST: u16 = 400;

pub const UNAUTHORIZED: u16 = 401;

pub const NOT_FOUND: u16 = 404;

pub const INTERNAL_SERVER_ERROR: u16 = 500;

/// A failed request: its kind and the message for the client.
#[derive(Clone, Debug, PartialEq, Eq)]
pub enum AppError {
    BadRequest(String),
    Unauthorized(String),
    NotFound(String),
    Internal(String),
}

/// An `AppError` as contracts see it.
pub enum ErrorView {
    BadRequest(Seq<char>),
    Unauthorized(Seq<char>),
    NotFound(Seq<char>),
    Internal(Seq<char>),
}

impl ErrorView {
    /// The HTTP status that answers a failure of this kind.
    pub open spec fn status(self) -> u16 {
        match self {
            ErrorView::BadRequest(_) => BAD_REQUEST,
            ErrorView::Unauthorized(_) => UNAUTHORIZED,
            ErrorView::NotFound(_) => NOT_FOUND,
            ErrorView::Internal(_) => INTERNAL_SERVER_ERROR,
        }
    }

    /// The message for the client.
    pub open spec fn message(self) -> Seq<char> {
        match self {
            ErrorView::BadRequest(m) => m,
            ErrorView::Unauthorized(m) => m,
            ErrorView::NotFound(m) => m,
            ErrorView::Internal(m) => m,
        }
    }
}

/// The reply to a store's failure that tells the client nothing of it.
pub open spec fn database_error() -> ErrorView {
    ErrorView::Internal("Database error"@)
}

impl View for AppError {
    type V = ErrorView;

    open spec fn view(&self) -> ErrorView {
        match self {
            AppError::BadRequest(m) => ErrorView::BadRequest(m@),
            AppError::Unauthorized(m) => ErrorView::Unauthorized(m@),
            AppError::NotFound(m) => ErrorView::NotFound(m@),
            AppError::Internal(m) => ErrorView::Internal(m@),
        }
    }
}

impl AppError {
    /// A validation failure, or a duplicate.
    pub fn bad_request(message: &str) -> (e: AppError)
        ensures
            e@ == ErrorView::BadRequest(message@),
    {
        AppError::BadRequest(message.to_owned())
    }

    /// An authentication failure of any kind.
    pub fn unauthorized(message: &str) -> (e: AppError)
        ensures
            e@ == ErrorView::Unauthorized(message@),
    {
        AppError::Unauthorized(message.to_owned())
    }

    /// A miss on a resource that the caller owns.
    pub fn not_found(message: &str) -> (e: AppError)
        ensures
            e@ == ErrorView::NotFound(message@),
    {
        AppError::NotFound(message.to_owned())
    }

    /// A failure of the backend.
    pub fn internal(message: &str) -> (e: AppError)
        ensures
            e@ == ErrorView::Internal(message@),
    {
        AppError::Internal(message.to_owned())
    }

    /// The failure that a store's failure ends in: the same for each, so that
    /// nothing of the backend reaches the client.
    pub fn from_store_failure(failure: StoreFailure) -> (e: AppError)
        ensures
            e@ == database_error(),
    {
        AppError::Internal("Database error".to_owned())
    }

    /// The HTTP status that answers this failure.
    pub fn status_code(&self) -> (code: u16)
        ensures
            code == self@.status(),
    {
        match self {
            AppError::BadRequest(_) => BAD_REQUEST,
            AppError::Unauthorized(_) => UNAUTHORIZED,
            AppError::NotFound(_) => NOT_FOUND,
            AppError::Internal(_) => INTERNAL_SERVER_ERROR,
        }
    }

    /// The status and the body of the reply that reports this failure.
    pub fn into_response(self) -> (r: (u16, ErrorResponse))
        ensures
            r.0 == self@.status(),
            r.1.error@ == self@.message(),
    {
        let (status, message) = match self {
            AppError::BadRequest(message) => (BAD_REQUEST, message),
            AppError::Unauthorized(message) => (UNAUTHORIZED, message),
            AppError::NotFound(message) => (NOT_FOUND, message),
            AppError::Internal(message) => (INTERNAL_SERVER_ERROR, message),
        };
        (status, ErrorResponse { error: message })
    }
}

} // verus!
