//! Storage-side types: connection descriptors, directory listings, file
//! content and the errors backends report.

use std::collections::HashMap;
use vstd::prelude::*;
use vstd::string::*;

verus! {

/// Metadata of one file or directory in a listing.
#[derive(Debug, Clone)]
pub struct FileInfo {
    pub filename: String,
    pub basename: String,
    pub lastmod: String,
    pub size: String,
    pub file_type: String,
    pub mime: Option<String>,
    pub etag: Option<String>,
}

/// One page of a directory listing.
#[derive(Debug, Clone)]
pub struct DirectoryResult {
    pub files: Vec<FileInfo>,
    pub has_more: bool,
    pub next_marker: Option<String>,
    pub total_count: Option<String>,
    pub path: String,
}

/// Paging, filtering and ordering of a directory listing.
#[derive(Debug, Clone)]
pub struct ListOptions {
    pub page_size: Option<u32>,
    pub marker: Option<String>,
    pub prefix: Option<String>,
    pub recursive: Option<bool>,
    pub sort_by: Option<String>,
    pub sort_order: Option<String>,
}

/// Protocol name plus the protocol-specific fields a backend is built from.
#[derive(Debug, Clone)]
pub struct ConnectionConfig {
    pub protocol: String,
    pub url: Option<String>,
    pub access_key: Option<String>,
    pub secret_key: Option<String>,
    pub region: Option<String>,
    pub bucket: Option<String>,
    pub endpoint: Option<String>,
    pub username: Option<String>,
    pub password: Option<String>,
    pub port: Option<u16>,
    pub private_key_path: Option<String>,
    pub passphrase: Option<String>,
    pub root_path: Option<String>,
    pub share: Option<String>,
    pub domain: Option<String>,
    pub extra_options: Option<HashMap<String, String>>,
}

/// Failures reported by storage backends.
#[derive(Debug, Clone)]
pub enum StorageError {
    ConnectionFailed(String),
    AuthenticationFailed(String),
    RequestFailed(String),
    NotFound(String),
    InvalidConfig(String),
    ProtocolNotSupported(String),
    NotConnected,
    IoError(String),
    NetworkError(String),
}

impl StorageError {
    /// The cause carried by the error (a fixed text for `NotConnected`).
    pub fn message(&self) -> (r: String)
        ensures
            self matches StorageError::RequestFailed(m) ==> r@ == m@,
            self matches StorageError::NotFound(m) ==> r@ == m@,
            self matches StorageError::ProtocolNotSupported(m) ==> r@ == m@,
            self is NotConnected ==> r@ == "not connected"@,
    {
        match self {
            StorageError::ConnectionFailed(m) => m.clone(),
            StorageError::AuthenticationFailed(m) => m.clone(),
            StorageError::RequestFailed(m) => m.clone(),
            StorageError::NotFound(m) => m.clone(),
            StorageError::InvalidConfig(m) => m.clone(),
            StorageError::ProtocolNotSupported(m) => m.clone(),
            StorageError::NotConnected => String::from_str("not connected"),
            StorageError::IoError(m) => m.clone(),
            StorageError::NetworkError(m) => m.clone(),
        }
    }
}

/// File bytes with their size and optional content metadata.
#[derive(Debug, Clone)]
pub struct FileContent {
    pub content: Vec<u8>,
    pub size: u64,
    pub mime_type: Option<String>,
    pub encoding: Option<String>,
}

/// State of a download.
#[derive(Debug, Clone, Copy, PartialEq, Eq, Structural)]
pub enum DownloadStatus {
    Pending,
    InProgress,
    Completed,
    Failed,
    Cancelled,
}

} // verus!
