//! Request and response shapes of the service's API.

use crate::storage::{ConnectionConfig, ListOptions};
use vstd::prelude::*;

verus! {

/// Standard response envelope.
#[derive(Debug)]
pub enum ApiResponse<T> {
    Success { data: T },
    Error { error: String, message: String },
}

impl<T> ApiResponse<T> {
    /// A successful response carrying `data`.
    pub fn success(data: T) -> (r: Self)
        ensures
            r == (ApiResponse::Success { data }),
    {
        ApiResponse::Success { data }
    }

    /// An error response with a machine-readable `error` and a `message`.
    pub fn error(error: String, message: String) -> (r: Self)
        ensures
            r matches ApiResponse::Error { error: e, message: m } && e@ == error@ && m@
                == message@,
    {
        ApiResponse::Error { error, message }
    }
}

/// Listing request for an archive.
#[derive(Debug, Clone)]
pub struct GetArchiveInfoRequest {
    pub file_path: String,
    pub max_entries: Option<usize>,
}

/// Request for one entry of an archive.
#[derive(Debug, Clone)]
pub struct GetArchiveFileRequest {
    pub archive_path: String,
    pub file_path: String,
    pub max_size: Option<u64>,
    pub offset: Option<u64>,
}

/// Connection request.
#[derive(Debug, Clone)]
pub struct ConnectRequest {
    pub config: ConnectionConfig,
}

/// Connection response.
#[derive(Debug, Clone)]
pub struct ConnectResponse {
    pub session_id: String,
    pub protocol: String,
    pub connected: bool,
}

/// Directory listing request.
#[derive(Debug, Clone)]
pub struct ListRequest {
    pub session_id: String,
    pub path: Option<String>,
    pub options: Option<ListOptions>,
}

/// File content request, optionally for a byte range.
#[derive(Debug, Clone)]
pub struct FileContentRequest {
    pub session_id: String,
    pub path: String,
    pub start: Option<u64>,
    pub length: Option<u64>,
}

/// Download request.
#[derive(Debug, Clone)]
pub struct DownloadRequest {
    pub session_id: String,
    pub file_path: String,
    pub save_path: Option<String>,
}

/// Server status report.
#[derive(Debug, Clone)]
pub struct ServerStatus {
    pub version: String,
    pub uptime_seconds: u64,
    pub active_connections: usize,
    pub active_sessions: usize,
    pub memory_usage: Option<u64>,
}

} // verus!
