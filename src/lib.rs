//! Remote archive browsing: a streaming ZIP directory reader and entry
//! extractor driven by byte-range reads, a buffered TAR reader, and the
//! storage-side types, clients and session registry around them.

pub mod api;
pub mod archive;
pub mod backends;
pub mod central_directory;
pub mod config;
pub mod engine;
pub mod entry_data;
pub mod error;
pub mod listing;
pub mod manager;
pub mod paths;
pub mod storage;
pub mod tar_facade;
pub mod text;
pub mod zip_layout;
