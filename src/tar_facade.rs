//! The buffered path: the whole archive is read into memory. ZIP archives
//! go through the streaming reader answered from memory; TAR and
//! gzip-compressed TAR archives are walked entry by entry with the `tar`
//! crate, and the result is shaped like the streaming path's.

use crate::archive::{
    lemma_size_sum_prefix, size_sum, ArchiveEntry, ArchiveError, ArchiveFormat, ArchiveInfo,
    FilePreview,
};
use crate::central_directory::lists_directory;
use crate::engine::{
    declared_entries, directory_of, extract_zip_in_memory, extraction_failure, list_zip_in_memory,
    listing_failure, previews_entry,
};
use crate::error::{Error, ErrorKind};
use crate::text::text_eq;
use vstd::prelude::*;

verus! {

/// What the walk of a TAR stream reports of one member.
#[derive(Debug, Clone)]
pub struct TarMember {
    pub path: String,
    pub size: Option<u64>,
    pub mtime: Option<u64>,
    pub is_dir: bool,
}

/// The members of a TAR stream in order; `failed` when the walk stopped at
/// an entry it could not read.
#[derive(Debug, Clone)]
pub struct TarListing {
    pub members: Vec<TarMember>,
    pub failed: bool,
}

/// The model of one member: path, size, modification time, directory flag.
pub type MemberModel = (Seq<char>, Option<u64>, Option<u64>, bool);

/// The model of a walked listing.
pub open spec fn model_of(listing: TarListing) -> (Seq<MemberModel>, bool) {
    (
        Seq::new(
            listing.members@.len(),
            |i: int|
                {
                    let m = listing.members@[i];
                    (m.path@, m.size, m.mtime, m.is_dir)
                },
        ),
        listing.failed,
    )
}

/// Members of the TAR archive `data`, and whether the walk failed.
pub uninterp spec fn tar_members(data: Seq<u8>) -> (Seq<MemberModel>, bool);

/// Members of the gzip-compressed TAR archive `data`, and whether the walk
/// failed.
pub uninterp spec fn tar_gz_members(data: Seq<u8>) -> (Seq<MemberModel>, bool);

/// Relies on tar's `Archive::entries` over the bytes: each member's path
/// (lossily decoded), header size and mtime, and directory type, until the
/// stream ends or an entry cannot be read.
#[verifier::external_body]
fn walk_tar(data: &[u8]) -> (r: TarListing)
    ensures
        model_of(r) == tar_members(data@),
{
    let mut archive = tar::Archive::new(data);
    let mut listing = TarListing { members: Vec::new(), failed: true };
    for e in archive.entries().into_iter().flatten() {
        let m = e.and_then(|e| Ok(TarMember {
            path: e.path()?.to_string_lossy().into_owned(),
            size: e.header().size().ok(),
            mtime: e.header().mtime().ok(),
            is_dir: e.header().entry_type().is_dir(),
        }));
        match m { Ok(m) => listing.members.push(m), Err(_) => return listing }
    }
    listing.failed = false;
    listing
}

/// Relies on tar's `Archive::entries` over flate2's `read::GzDecoder` of the
/// bytes, reporting members as `walk_tar` does.
#[verifier::external_body]
fn walk_tar_gz(data: &[u8]) -> (r: TarListing)
    ensures
        model_of(r) == tar_gz_members(data@),
{
    let mut archive = tar::Archive::new(flate2::read::GzDecoder::new(data));
    let mut listing = TarListing { members: Vec::new(), failed: true };
    for e in archive.entries().into_iter().flatten() {
        let m = e.and_then(|e| Ok(TarMember {
            path: e.path()?.to_string_lossy().into_owned(),
            size: e.header().size().ok(),
            mtime: e.header().mtime().ok(),
            is_dir: e.header().entry_type().is_dir(),
        }));
        match m { Ok(m) => listing.members.push(m), Err(_) => return listing }
    }
    listing.failed = false;
    listing
}

/// Bytes one read of at most `len` bytes returns from member `index` of the
/// TAR archive `data`, or `None` where it fails.
pub uninterp spec fn tar_member_read(data: Seq<u8>, index: nat, len: nat) -> Option<Seq<u8>>;

/// Bytes one read of at most `len` bytes returns from member `index` of the
/// gzip-compressed TAR archive `data`, or `None` where it fails.
pub uninterp spec fn tar_gz_member_read(data: Seq<u8>, index: nat, len: nat) -> Option<Seq<u8>>;

/// Relies on tar's `Archive::entries`, `Iterator::nth` and one `Read::read`
/// of the member into a buffer of `len` bytes, which reads at most `len`.
#[verifier::external_body]
fn read_tar_member(data: &[u8], index: usize, len: usize) -> (r: Option<Vec<u8>>)
    ensures
        r is Some <==> tar_member_read(data@, index as nat, len as nat) is Some,
        r matches Some(v) ==> tar_member_read(data@, index as nat, len as nat) == Some(v@)
            && v@.len() <= len,
{
    let mut archive = tar::Archive::new(data);
    let mut entry = archive.entries().ok()?.nth(index)?.ok()?;
    let mut buffer = vec![0u8; len];
    let n = std::io::Read::read(&mut entry, &mut buffer).ok()?;
    buffer.truncate(n);
    Some(buffer)
}

/// Relies on tar's `Archive::entries` over flate2's `read::GzDecoder`,
/// `Iterator::nth` and one `Read::read` of at most `len` bytes.
#[verifier::external_body]
fn read_tar_gz_member(data: &[u8], index: usize, len: usize) -> (r: Option<Vec<u8>>)
    ensures
        r is Some <==> tar_gz_member_read(data@, index as nat, len as nat) is Some,
        r matches Some(v) ==> tar_gz_member_read(data@, index as nat, len as nat) == Some(v@)
            && v@.len() <= len,
{
    let mut archive = tar::Archive::new(flate2::read::GzDecoder::new(data));
    let mut entry = archive.entries().ok()?.nth(index)?.ok()?;
    let mut buffer = vec![0u8; len];
    let n = std::io::Read::read(&mut entry, &mut buffer).ok()?;
    buffer.truncate(n);
    Some(buffer)
}

/// RFC 3339 text of the UTC time `secs` seconds after 1970, or `None` out of
/// range.
pub uninterp spec fn rfc3339_of(secs: int) -> Option<Seq<char>>;

/// Relies on chrono's `DateTime::<Utc>::from_timestamp` and `to_rfc3339`.
#[verifier::external_body]
fn rfc3339_utc(secs: i64) -> (r: Option<String>)
    ensures
        r is Some <==> rfc3339_of(secs as int) is Some,
        r matches Some(s) ==> rfc3339_of(secs as int) == Some(s@),
{
    chrono::DateTime::<chrono::Utc>::from_timestamp(secs, 0).map(|dt| dt.to_rfc3339())
}

/// Last component of path `p`, as `std::path::Path::file_name` gives it
/// under the build target's path rules.
pub uninterp spec fn file_name_of(p: Seq<char>) -> Option<Seq<char>>;

/// Relies on `std::path::Path::file_name`, lossily decoded.
#[verifier::external_body]
fn path_file_name(p: &str) -> (r: Option<String>)
    ensures
        r is Some <==> file_name_of(p@) is Some,
        r matches Some(s) ==> file_name_of(p@) == Some(s@),
{
    std::path::Path::new(p).file_name().map(|n| n.to_string_lossy().into_owned())
}

/// The listing entry for member `m`.
pub open spec fn member_entry(e: ArchiveEntry, m: MemberModel) -> bool {
    &&& e.path@ == m.0
    &&& e.name@ == match file_name_of(m.0) {
        Some(n) => n,
        None => m.0,
    }
    &&& e.size == match m.1 {
        Some(s) => s,
        None => 0,
    }
    &&& e.compressed_size is None
    &&& e.modified is Some <==> (m.2 is Some && rfc3339_of(m.2->0 as i64 as int) is Some)
    &&& e.modified matches Some(t) ==> rfc3339_of(m.2->0 as i64 as int) == Some(t@)
    &&& e.is_directory == m.3
    &&& !e.is_encrypted
    &&& e.crc32 is None
}

/// How many members a listing takes.
pub open spec fn tar_limit(max_entries: Option<usize>) -> int {
    match max_entries {
        Some(m) => m as int,
        None => usize::MAX as int,
    }
}

/// `info` lists `members` for `format`, taking at most `max_entries` of them.
pub open spec fn lists_tar(
    info: ArchiveInfo,
    members: Seq<MemberModel>,
    format: ArchiveFormat,
    max_entries: Option<usize>,
) -> bool {
    let n = members.len();
    let taken = if tar_limit(max_entries) < n {
        tar_limit(max_entries)
    } else {
        n as int
    };
    &&& info.entries@.len() == taken
    &&& forall|i: int|
        0 <= i < taken ==> member_entry(#[trigger] info.entries@[i], members[i])
    &&& info.total_entries == n
    &&& info.has_more == (taken < n)
    &&& info.total_uncompressed_size == size_sum(info.entries@, taken)
    &&& info.total_compressed_size == if format == ArchiveFormat::Tar {
        info.total_uncompressed_size
    } else {
        0
    }
    &&& info.format == format
}

/// Shapes a walked TAR listing into an inventory of at most `max_entries`
/// entries. A walk that failed before the cap was reached fails the listing.
pub fn tar_info_from_listing(listing: &TarListing, format: ArchiveFormat, max_entries: Option<
    usize,
>) -> (r: Result<ArchiveInfo, ArchiveError>)
    ensures
        r is Ok <==> !(listing.failed && listing.members@.len() < tar_limit(max_entries)),
        r matches Ok(info) ==> lists_tar(info, model_of(*listing).0, format, max_entries),
        r is Err ==> r matches Err(ArchiveError::InvalidArchive(_)),
{
    let limit: usize = match max_entries {
        Some(m) => m,
        None => usize::MAX,
    };
    let n = listing.members.len();
    if listing.failed && n < limit {
        return Err(ArchiveError::InvalidArchive("unreadable TAR entry".to_string()));
    }
    let taken = if limit < n {
        limit
    } else {
        n
    };
    let mut entries: Vec<ArchiveEntry> = Vec::new();
    let mut total: u64 = 0;
    let mut i: usize = 0;
    while i < taken
        invariant
            taken <= listing.members@.len(),
            i <= taken,
            entries@.len() == i,
            total == size_sum(entries@, i as int),
            forall|k: int| 0 <= k < i ==> member_entry(#[trigger] entries@[k], model_of(*listing).0[k]),
        decreases taken - i,
    {
        let m = &listing.members[i];
        let name = match path_file_name(m.path.as_str()) {
            Some(n) => n,
            None => m.path.clone(),
        };
        let size = match m.size {
            Some(s) => s,
            None => 0,
        };
        let modified = match m.mtime {
            Some(t) => rfc3339_utc(t as i64),
            None => None,
        };
        let ghost before = entries@;
        let entry = ArchiveEntry {
            path: m.path.clone(),
            name,
            size,
            compressed_size: None,
            modified,
            is_directory: m.is_dir,
            is_encrypted: false,
            crc32: None,
        };
        entries.push(entry);
        total = total.saturating_add(size);
        proof {
            lemma_size_sum_prefix(before, entries@, i as int);
        }
        i = i + 1;
    }
    let total_compressed = match format {
        ArchiveFormat::Tar => total,
        _ => 0,
    };
    Ok(
        ArchiveInfo {
            entries,
            total_entries: n as u64,
            total_uncompressed_size: total,
            total_compressed_size: total_compressed,
            format,
            has_more: taken < n,
        },
    )
}


/// Index of the first member from `i` on whose path is `target`.
pub open spec fn first_named(members: Seq<MemberModel>, target: Seq<char>, i: int) -> Option<int>
    decreases members.len() - i,
{
    if i < 0 || i >= members.len() {
        None
    } else if members[i].0 == target {
        Some(i)
    } else {
        first_named(members, target, i + 1)
    }
}

fn find_member(listing: &TarListing, target: &str) -> (r: Option<usize>)
    ensures
        r is Some <==> first_named(model_of(*listing).0, target@, 0) is Some,
        r matches Some(i) ==> first_named(model_of(*listing).0, target@, 0) == Some(i as int)
            && i < listing.members@.len(),
{
    let ghost ms = model_of(*listing).0;
    let mut i: usize = 0;
    while i < listing.members.len()
        invariant
            ms == model_of(*listing).0,
            i <= ms.len(),
            first_named(ms, target@, 0) == first_named(ms, target@, i as int),
        decreases ms.len() - i,
    {
        if text_eq(listing.members[i].path.as_str(), target) {
            return Some(i);
        }
        i = i + 1;
    }
    None
}

/// Bytes asked of a member of declared size `size` when at most `max_size`
/// are wanted.
pub open spec fn tar_read_size(size: Option<u64>, max_size: Option<u64>) -> u64 {
    let total = match size {
        Some(s) => s,
        None => 0,
    };
    match max_size {
        Some(m) => if m < total {
            m
        } else {
            total
        },
        None => total,
    }
}

/// The preview of a TAR member of declared size `size` whose read returned
/// `content`.
pub open spec fn tar_preview(p: FilePreview, size: Option<u64>, content: Seq<u8>) -> bool {
    let total: u64 = match size {
        Some(s) => s,
        None => 0,
    };
    &&& p.content@ == content
    &&& p.preview_size == content.len()
    &&& p.total_size == total
    &&& p.is_truncated == (content.len() < total)
}

/// The archive failure reporting a failed in-memory ZIP read: a missing
/// entry is not found, anything else an invalid archive.
fn zip_failure(e: Error) -> (r: ArchiveError)
    ensures
        e.kind() == ErrorKind::NotFound ==> r is FileNotFound,
        e.kind() != ErrorKind::NotFound ==> r is InvalidArchive,
{
    match e {
        Error::NotFound(m) => ArchiveError::FileNotFound(m),
        other => ArchiveError::InvalidArchive(other.message()),
    }
}

/// The reader of fully buffered archives: ZIP through the streaming reader
/// answered from memory, TAR and gzip-compressed TAR entry by entry.
pub struct ArchiveHandler;

impl ArchiveHandler {
    /// The members of `data` read as `format`.
    pub open spec fn members_spec(data: Seq<u8>, format: ArchiveFormat) -> (Seq<MemberModel>, bool) {
        if format == ArchiveFormat::Tar {
            tar_members(data)
        } else {
            tar_gz_members(data)
        }
    }

    /// Lists the archive `data`, taking at most `max_entries` members. ZIP,
    /// TAR and gzip-compressed TAR are read.
    pub fn analyze(data: &[u8], format: ArchiveFormat, max_entries: Option<usize>) -> (r: Result<
        ArchiveInfo,
        ArchiveError,
    >)
        ensures
            format == ArchiveFormat::Zip ==> (r is Ok <==> listing_failure(data@, max_entries) is None),
            format == ArchiveFormat::Zip ==> (r is Err ==> r matches Err(
                ArchiveError::InvalidArchive(_),
            )),
            format == ArchiveFormat::Zip ==> (r matches Ok(info) ==> lists_directory(
                info,
                directory_of(data@),
                declared_entries(data@),
                max_entries,
            )),
            !(format == ArchiveFormat::Zip || format == ArchiveFormat::Tar || format
                == ArchiveFormat::TarGz) ==> r matches Err(ArchiveError::UnsupportedFormat(_)),
            (format == ArchiveFormat::Tar || format == ArchiveFormat::TarGz) ==> {
                let (ms, failed) = Self::members_spec(data@, format);
                &&& (r is Ok <==> !(failed && ms.len() < tar_limit(max_entries)))
                &&& (r matches Ok(info) ==> lists_tar(info, ms, format, max_entries))
                &&& (r is Err ==> r matches Err(ArchiveError::InvalidArchive(_)))
            },
    {
        match format {
            ArchiveFormat::Zip => match list_zip_in_memory(data, max_entries) {
                Ok(info) => Ok(info),
                Err(e) => Err(zip_failure(e)),
            },
            ArchiveFormat::Tar => tar_info_from_listing(&walk_tar(data), format, max_entries),
            ArchiveFormat::TarGz => tar_info_from_listing(&walk_tar_gz(data), format, max_entries),
            _ => Err(ArchiveError::UnsupportedFormat("format not read from memory".to_string())),
        }
    }

    /// Reads the entry of `data` named `file_path` (for TAR, the first such
    /// member, in one read), at most `max_size` bytes of its payload.
    pub fn extract_file(data: &[u8], format: ArchiveFormat, file_path: &str, max_size: Option<u64>) -> (r:
        Result<FilePreview, ArchiveError>)
        ensures
            format == ArchiveFormat::Zip ==> (r is Ok <==> extraction_failure(
                data@,
                file_path@,
                max_size,
            ) is None),
            format == ArchiveFormat::Zip ==> (r matches Ok(p) ==> previews_entry(
                p,
                data@,
                file_path@,
                max_size,
            )),
            format == ArchiveFormat::Zip && extraction_failure(data@, file_path@, max_size) == Some(
                ErrorKind::NotFound,
            ) ==> r matches Err(ArchiveError::FileNotFound(_)),
            format == ArchiveFormat::Zip && extraction_failure(data@, file_path@, max_size) is Some
                && extraction_failure(data@, file_path@, max_size) != Some(ErrorKind::NotFound)
                ==> r matches Err(ArchiveError::InvalidArchive(_)),
            !(format == ArchiveFormat::Zip || format == ArchiveFormat::Tar || format
                == ArchiveFormat::TarGz) ==> r matches Err(ArchiveError::UnsupportedFormat(_)),
            (format == ArchiveFormat::Tar || format == ArchiveFormat::TarGz) ==> {
                let (ms, failed) = Self::members_spec(data@, format);
                match first_named(ms, file_path@, 0) {
                    None => if failed {
                        r matches Err(ArchiveError::InvalidArchive(_))
                    } else {
                        r matches Err(ArchiveError::FileNotFound(_))
                    },
                    Some(i) => {
                        let len = tar_read_size(ms[i].1, max_size) as nat;
                        let read = if format == ArchiveFormat::Tar {
                            tar_member_read(data@, i as nat, len)
                        } else {
                            tar_gz_member_read(data@, i as nat, len)
                        };
                        &&& (r is Ok <==> (len <= usize::MAX && read is Some))
                        &&& (r matches Ok(p) ==> tar_preview(p, ms[i].1, read->0))
                        &&& (r is Err ==> r matches Err(ArchiveError::ExtractionFailed(_)))
                    },
                }
            },
    {
        let listing = match format {
            ArchiveFormat::Zip => {
                return match extract_zip_in_memory(data, file_path, max_size) {
                    Ok(p) => Ok(p),
                    Err(e) => Err(zip_failure(e)),
                };
            },
            ArchiveFormat::Tar => walk_tar(data),
            ArchiveFormat::TarGz => walk_tar_gz(data),
            _ => {
                return Err(
                    ArchiveError::UnsupportedFormat("format not read from memory".to_string()),
                );
            },
        };
        let i = match find_member(&listing, file_path) {
            Some(i) => i,
            None => {
                if listing.failed {
                    return Err(ArchiveError::InvalidArchive("unreadable TAR entry".to_string()));
                }
                return Err(ArchiveError::FileNotFound(file_path.to_string()));
            },
        };
        let total: u64 = match listing.members[i].size {
            Some(s) => s,
            None => 0,
        };
        let read_size: u64 = match max_size {
            Some(m) => if m < total {
                m
            } else {
                total
            },
            None => total,
        };
        if read_size > usize::MAX as u64 {
            return Err(ArchiveError::ExtractionFailed("TAR entry too large to buffer".to_string()));
        }
        let content = match format {
            ArchiveFormat::Tar => read_tar_member(data, i, read_size as usize),
            _ => read_tar_gz_member(data, i, read_size as usize),
        };
        match content {
            Some(content) => {
                let n = content.len() as u64;
                Ok(FilePreview { content, is_truncated: n < total, total_size: total, preview_size: n })
            },
            None => Err(ArchiveError::ExtractionFailed("failed to read the TAR entry".to_string())),
        }
    }
}

} // verus!
