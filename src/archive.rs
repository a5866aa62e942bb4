//! What the archive engine reports: entry listings, previews of one entry,
//! the container formats it recognises, and its errors.

use crate::error::Error;
use crate::text::{lowercase_of, text_eq, to_lowercase};
use vstd::prelude::*;

verus! {

/// Inventory of an archive.
#[derive(Debug, Clone)]
pub struct ArchiveInfo {
    pub entries: Vec<ArchiveEntry>,
    pub total_entries: u64,
    pub total_uncompressed_size: u64,
    pub total_compressed_size: u64,
    pub format: ArchiveFormat,
    pub has_more: bool,
}

/// One entry of an archive listing.
#[derive(Debug, Clone)]
pub struct ArchiveEntry {
    pub path: String,
    pub name: String,
    pub size: u64,
    pub compressed_size: Option<u64>,
    pub modified: Option<String>,
    pub is_directory: bool,
    pub is_encrypted: bool,
    pub crc32: Option<u32>,
}

/// Sum of the sizes of the first `n` entries, saturating at `u64::MAX`.
pub open spec fn size_sum(entries: Seq<ArchiveEntry>, n: int) -> u64
    decreases n,
{
    if n <= 0 {
        0
    } else {
        let s = size_sum(entries, n - 1) as int + entries[n - 1].size as int;
        if s > u64::MAX {
            u64::MAX
        } else {
            s as u64
        }
    }
}

/// Sum of the compressed sizes of the first `n` entries (0 where one is
/// unknown), saturating at `u64::MAX`.
pub open spec fn compressed_sum(entries: Seq<ArchiveEntry>, n: int) -> u64
    decreases n,
{
    if n <= 0 {
        0
    } else {
        let c: int = match entries[n - 1].compressed_size {
            Some(c) => c as int,
            None => 0,
        };
        let s = compressed_sum(entries, n - 1) as int + c;
        if s > u64::MAX {
            u64::MAX
        } else {
            s as u64
        }
    }
}

/// Both sums over the first `k` entries depend on those entries alone.
pub(crate) proof fn lemma_size_sum_prefix(a: Seq<ArchiveEntry>, b: Seq<ArchiveEntry>, k: int)
    requires
        0 <= k <= a.len(),
        k <= b.len(),
        forall|j: int| 0 <= j < k ==> a[j] == b[j],
    ensures
        size_sum(a, k) == size_sum(b, k),
        compressed_sum(a, k) == compressed_sum(b, k),
    decreases k,
{
    if k > 0 {
        lemma_size_sum_prefix(a, b, k - 1);
    }
}

/// Container formats, told apart by file extension.
#[derive(Debug, Clone, Copy, PartialEq, Eq, Structural)]
pub enum ArchiveFormat {
    Zip,
    Tar,
    TarGz,
    TarBz2,
    TarXz,
    SevenZ,
    Rar,
    Gzip,
    Unknown,
}

/// The format named by an already lower-cased extension.
pub open spec fn format_for(ext: Seq<char>) -> ArchiveFormat {
    if ext == "zip"@ {
        ArchiveFormat::Zip
    } else if ext == "tar"@ {
        ArchiveFormat::Tar
    } else if ext == "tgz"@ || ext == "tar.gz"@ {
        ArchiveFormat::TarGz
    } else if ext == "tbz"@ || ext == "tbz2"@ || ext == "tar.bz2"@ {
        ArchiveFormat::TarBz2
    } else if ext == "txz"@ || ext == "tar.xz"@ {
        ArchiveFormat::TarXz
    } else if ext == "7z"@ {
        ArchiveFormat::SevenZ
    } else if ext == "rar"@ {
        ArchiveFormat::Rar
    } else if ext == "gz"@ {
        ArchiveFormat::Gzip
    } else {
        ArchiveFormat::Unknown
    }
}

/// Maps a lower-case extension to its format.
pub fn format_from_lowercase(ext: &str) -> (r: ArchiveFormat)
    ensures
        r == format_for(ext@),
{
    if text_eq(ext, "zip") {
        ArchiveFormat::Zip
    } else if text_eq(ext, "tar") {
        ArchiveFormat::Tar
    } else if text_eq(ext, "tgz") || text_eq(ext, "tar.gz") {
        ArchiveFormat::TarGz
    } else if text_eq(ext, "tbz") || text_eq(ext, "tbz2") || text_eq(ext, "tar.bz2") {
        ArchiveFormat::TarBz2
    } else if text_eq(ext, "txz") || text_eq(ext, "tar.xz") {
        ArchiveFormat::TarXz
    } else if text_eq(ext, "7z") {
        ArchiveFormat::SevenZ
    } else if text_eq(ext, "rar") {
        ArchiveFormat::Rar
    } else if text_eq(ext, "gz") {
        ArchiveFormat::Gzip
    } else {
        ArchiveFormat::Unknown
    }
}

impl ArchiveFormat {
    /// The format named by `ext`, compared without regard to case.
    pub fn from_extension(ext: &str) -> (r: Self)
        ensures
            r == format_for(lowercase_of(ext@)),
    {
        let lower = to_lowercase(ext);
        format_from_lowercase(lower.as_str())
    }

    /// Only ZIP is read by random access; TAR and gzip-compressed TAR are
    /// read whole.
    pub open spec fn is_supported_spec(self) -> bool {
        self == ArchiveFormat::Zip || self == ArchiveFormat::Tar || self == ArchiveFormat::TarGz
    }

    /// Whether the engine can open archives of this format.
    pub fn is_supported(&self) -> (r: bool)
        ensures
            r == self.is_supported_spec(),
    {
        match self {
            ArchiveFormat::Zip | ArchiveFormat::Tar | ArchiveFormat::TarGz => true,
            _ => false,
        }
    }
}

/// The leading part of one archive entry's content.
#[derive(Debug, Clone)]
pub struct FilePreview {
    pub content: Vec<u8>,
    pub is_truncated: bool,
    pub total_size: u64,
    pub preview_size: u64,
}

/// Failures of archive analysis and extraction.
#[derive(Debug, Clone)]
pub enum ArchiveError {
    UnsupportedFormat(String),
    InvalidArchive(String),
    FileNotFound(String),
    ExtractionFailed(String),
    IoError(String),
    PermissionDenied(String),
    TooLarge,
}


impl ArchiveError {
    /// The request-level error reporting this failure: a missing entry is
    /// not found, an unsupported format a bad request, anything else an
    /// internal failure.
    pub fn into_error(self) -> (r: Error)
        ensures
            self is FileNotFound ==> r is NotFound,
            self is UnsupportedFormat ==> r is BadRequest,
            !(self is FileNotFound || self is UnsupportedFormat) ==> r is Internal,
    {
        match self {
            ArchiveError::FileNotFound(m) => Error::NotFound(m),
            ArchiveError::UnsupportedFormat(m) => Error::BadRequest(m),
            ArchiveError::InvalidArchive(m) => Error::Internal(m),
            ArchiveError::ExtractionFailed(m) => Error::Internal(m),
            ArchiveError::IoError(m) => Error::Internal(m),
            ArchiveError::PermissionDenied(m) => Error::Internal(m),
            ArchiveError::TooLarge => Error::Internal("archive too large".to_string()),
        }
    }
}

} // verus!
