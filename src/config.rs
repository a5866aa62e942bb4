//! Service configuration and its defaults.

use vstd::prelude::*;

verus! {

/// Whole service configuration.
#[derive(Debug, Clone)]
pub struct Config {
    pub server: ServerConfig,
    pub storage: StorageConfig,
    pub security: SecurityConfig,
}

/// Listener settings.
#[derive(Debug, Clone)]
pub struct ServerConfig {
    pub host: String,
    pub port: u16,
    pub max_connections: usize,
    pub request_timeout_seconds: u64,
}

/// Storage session and transfer settings.
#[derive(Debug, Clone)]
pub struct StorageConfig {
    pub session_timeout_minutes: u64,
    pub max_file_size_mb: u64,
    pub chunk_size_kb: u64,
    pub max_concurrent_downloads: usize,
}

/// Limits on what clients may access and preview.
#[derive(Debug, Clone)]
pub struct SecurityConfig {
    pub allow_local_files: bool,
    pub max_archive_entries: usize,
    pub max_preview_size_mb: u64,
}

impl Default for Config {
    fn default() -> (r: Self)
        ensures
            r.server.host@ == "127.0.0.1"@,
            r.server.port == 8080,
            r.server.max_connections == 1000,
            r.server.request_timeout_seconds == 30,
            r.storage.session_timeout_minutes == 60,
            r.storage.max_file_size_mb == 1024,
            r.storage.chunk_size_kb == 1024,
            r.storage.max_concurrent_downloads == 10,
            r.security.allow_local_files,
            r.security.max_archive_entries == 10000,
            r.security.max_preview_size_mb == 10,
    {
        Config {
            server: ServerConfig {
                host: "127.0.0.1".to_string(),
                port: 8080,
                max_connections: 1000,
                request_timeout_seconds: 30,
            },
            storage: StorageConfig {
                session_timeout_minutes: 60,
                max_file_size_mb: 1024,
                chunk_size_kb: 1024,
                max_concurrent_downloads: 10,
            },
            security: SecurityConfig {
                allow_local_files: true,
                max_archive_entries: 10000,
                max_preview_size_mb: 10,
            },
        }
    }
}

} // verus!
