//! The error type surfaced to callers of the archive and storage services.

use crate::storage::StorageError;
use vstd::prelude::*;

verus! {

/// Request-level failures.
#[derive(Debug, Clone)]
pub enum Error {
    Storage(StorageError),
    Config(String),
    Authentication(String),
    Authorization(String),
    Validation(String),
    BadRequest(String),
    NotFound(String),
    Internal(String),
    Network(String),
    Archive(String),
    WebSocket(String),
}

/// The three ways a request of the archive engine fails.
#[derive(Debug, Clone, Copy, PartialEq, Eq, Structural)]
pub enum ErrorKind {
    /// The request or the archive is unacceptable.
    BadRequest,
    /// The session or the entry does not exist.
    NotFound,
    /// A read failed or came back short, or data did not decode.
    Internal,
    /// Any other failure.
    Other,
}

impl Error {
    /// The kind of this error.
    pub open spec fn kind(self) -> ErrorKind {
        match self {
            Error::BadRequest(_) => ErrorKind::BadRequest,
            Error::NotFound(_) => ErrorKind::NotFound,
            Error::Internal(_) => ErrorKind::Internal,
            _ => ErrorKind::Other,
        }
    }

    /// The HTTP status code that reports this error.
    pub fn status_code(&self) -> (r: u16)
        ensures
            self is BadRequest ==> r == 400,
            self is NotFound ==> r == 404,
            self is Internal ==> r == 500,
            self is Storage || self is Validation || self is Archive || self is WebSocket ==> r
                == 400,
            self is Authentication ==> r == 401,
            self is Authorization ==> r == 403,
            self is Config ==> r == 500,
            self is Network ==> r == 502,
    {
        match self {
            Error::Storage(_) => 400,
            Error::Config(_) => 500,
            Error::Authentication(_) => 401,
            Error::Authorization(_) => 403,
            Error::Validation(_) => 400,
            Error::BadRequest(_) => 400,
            Error::NotFound(_) => 404,
            Error::Internal(_) => 500,
            Error::Network(_) => 502,
            Error::Archive(_) => 400,
            Error::WebSocket(_) => 400,
        }
    }

    /// A stable machine-readable name of the error's kind.
    pub fn error_type(&self) -> (r: &'static str)
        ensures
            self is BadRequest ==> r@ == "BAD_REQUEST"@,
            self is NotFound ==> r@ == "NOT_FOUND"@,
            self is Internal ==> r@ == "INTERNAL_ERROR"@,
            self is Storage ==> r@ == "STORAGE_ERROR"@,
            self is Config ==> r@ == "CONFIG_ERROR"@,
            self is Authentication ==> r@ == "AUTHENTICATION_ERROR"@,
            self is Authorization ==> r@ == "AUTHORIZATION_ERROR"@,
            self is Validation ==> r@ == "VALIDATION_ERROR"@,
            self is Network ==> r@ == "NETWORK_ERROR"@,
            self is Archive ==> r@ == "ARCHIVE_ERROR"@,
            self is WebSocket ==> r@ == "WEBSOCKET_ERROR"@,
    {
        match self {
            Error::Storage(_) => "STORAGE_ERROR",
            Error::Config(_) => "CONFIG_ERROR",
            Error::Authentication(_) => "AUTHENTICATION_ERROR",
            Error::Authorization(_) => "AUTHORIZATION_ERROR",
            Error::Validation(_) => "VALIDATION_ERROR",
            Error::BadRequest(_) => "BAD_REQUEST",
            Error::NotFound(_) => "NOT_FOUND",
            Error::Internal(_) => "INTERNAL_ERROR",
            Error::Network(_) => "NETWORK_ERROR",
            Error::Archive(_) => "ARCHIVE_ERROR",
            Error::WebSocket(_) => "WEBSOCKET_ERROR",
        }
    }

    /// The human-readable cause carried by the error.
    pub fn message(&self) -> (r: String)
        ensures
            self matches Error::BadRequest(m) ==> r@ == m@,
            self matches Error::NotFound(m) ==> r@ == m@,
            self matches Error::Internal(m) ==> r@ == m@,
    {
        match self {
            Error::Storage(e) => e.message(),
            Error::Config(m) => m.clone(),
            Error::Authentication(m) => m.clone(),
            Error::Authorization(m) => m.clone(),
            Error::Validation(m) => m.clone(),
            Error::BadRequest(m) => m.clone(),
            Error::NotFound(m) => m.clone(),
            Error::Internal(m) => m.clone(),
            Error::Network(m) => m.clone(),
            Error::Archive(m) => m.clone(),
            Error::WebSocket(m) => m.clone(),
        }
    }
}

} // verus!
