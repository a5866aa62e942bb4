//! The streaming archive engine as state machines. Each machine decides,
//! from what the last read returned, the next byte-range read to make or the
//! final outcome; the caller performs the reads against a storage backend and
//! feeds the results back.

use crate::archive::{ArchiveFormat, ArchiveInfo, FilePreview};
use crate::central_directory::{
    find_file_in_central_directory, listed_records, lists_directory, parse_central_directory,
    parse_limit, record_named, zip_entry_describes, ZipFileEntry,
};
use crate::entry_data::{
    check_entry_size, data_offset, decode_payload, decoded_content, local_data_offset,
    payload_read_size, preview_of, read_size_for, MAX_ENTRY_SIZE,
};
use crate::paths::{archive_format_of, format_of_path};
use crate::error::{Error, ErrorKind};
use crate::storage::StorageError;
use crate::zip_layout::{
    has_signature, le16, le32, located_eocd, locate_eocd, signature_at, EndOfCentralDirectory,
    LOCAL_HEADER_SIZE,
};
use crate::text::decimal;
use vstd::prelude::*;
use vstd::utf8::encode_utf8;

verus! {

/// Smallest file that can hold an end-of-central-directory record.
pub const MIN_ARCHIVE_SIZE: u64 = 22;

/// Largest archive the engine opens (500 GiB).
pub const MAX_ARCHIVE_SIZE: u64 = 536870912000;

/// Size of the window at the end of the file searched for the record.
pub const TAIL_WINDOW: u64 = 65536;

/// Most entries an archive may declare.
pub const MAX_DIRECTORY_ENTRIES: u64 = 1000000;

/// Largest central directory the engine reads (500 MiB).
pub const MAX_DIRECTORY_SIZE: u64 = 524288000;

/// A read the caller is asked to perform.
#[derive(Debug, Clone, Copy, PartialEq, Eq, Structural)]
pub enum ReadRequest {
    /// The size of the archive file.
    FileSize,
    /// The bytes `[offset, offset + length)`, fewer only at the end of file.
    Range { offset: u64, length: u64 },
}

/// What a read returned.
#[derive(Debug, Clone)]
pub enum ReadEvent {
    Size(u64),
    Bytes(Vec<u8>),
    Failed(StorageError),
}

/// The machine's answer: another read, or the final outcome.
#[derive(Debug)]
pub enum Step<T> {
    Read(ReadRequest),
    Done(Result<T, Error>),
}

/// Where the search for the central directory stands.
#[derive(Debug, Clone, Copy, PartialEq, Eq, Structural)]
pub enum LocatePhase {
    AwaitSize,
    AwaitHeader { file_size: u64 },
    AwaitTail { file_size: u64, tail_len: u64 },
    AwaitDirectory { record: EndOfCentralDirectory },
}

/// Outcome of one step of the search for the central directory.
#[derive(Debug)]
pub enum Located {
    Next(LocatePhase, ReadRequest),
    Failed(Error),
    Directory(EndOfCentralDirectory, Vec<u8>),
}

/// Files too small to be an archive, or too large to be opened.
pub open spec fn size_rejected(size: u64) -> bool {
    size < MIN_ARCHIVE_SIZE || size > MAX_ARCHIVE_SIZE
}

/// Length of the tail window of a file of `size` bytes.
pub open spec fn tail_len_for(size: u64) -> u64 {
    if size < TAIL_WINDOW {
        size
    } else {
        TAIL_WINDOW
    }
}

/// A located record whose directory is implausible: too many entries, larger
/// than the file, or larger than 500 MiB.
pub open spec fn directory_rejected(rec: EndOfCentralDirectory, file_size: u64) -> bool {
    ||| rec.total_entries > MAX_DIRECTORY_ENTRIES
    ||| rec.central_directory_size > file_size
    ||| rec.central_directory_size > MAX_DIRECTORY_SIZE
}

/// What one step of the search for the central directory leads to.
pub enum LocateModel {
    Next(LocatePhase, ReadRequest),
    Fail(ErrorKind),
    Directory(EndOfCentralDirectory, Seq<u8>),
}

/// One step of the search for the central directory: the first four bytes
/// must be the local-file-header signature, the tail window must hold a
/// genuine end record whose directory is plausible, and every read of a fixed
/// length must return exactly that length. A failed read, or an answer of the
/// wrong kind, is an internal failure.
pub open spec fn locate_model(phase: LocatePhase, event: ReadEvent) -> LocateModel {
    match phase {
        LocatePhase::AwaitSize => match event {
            ReadEvent::Size(n) => if size_rejected(n) {
                LocateModel::Fail(ErrorKind::BadRequest)
            } else {
                LocateModel::Next(
                    LocatePhase::AwaitHeader { file_size: n },
                    ReadRequest::Range { offset: 0, length: 4 },
                )
            },
            _ => LocateModel::Fail(ErrorKind::Internal),
        },
        LocatePhase::AwaitHeader { file_size } => match event {
            ReadEvent::Bytes(h) => if h@.len() != 4 {
                LocateModel::Fail(ErrorKind::Internal)
            } else if !signature_at(h@, 0, 0x03, 0x04) {
                LocateModel::Fail(ErrorKind::BadRequest)
            } else {
                LocateModel::Next(
                    LocatePhase::AwaitTail { file_size, tail_len: tail_len_for(file_size) },
                    ReadRequest::Range {
                        offset: (file_size - tail_len_for(file_size)) as u64,
                        length: tail_len_for(file_size),
                    },
                )
            },
            _ => LocateModel::Fail(ErrorKind::Internal),
        },
        LocatePhase::AwaitTail { file_size, tail_len } => match event {
            ReadEvent::Bytes(t) => if t@.len() != tail_len {
                LocateModel::Fail(ErrorKind::Internal)
            } else {
                match located_eocd(t@) {
                    None => LocateModel::Fail(ErrorKind::BadRequest),
                    Some(rec) => if directory_rejected(rec, file_size) {
                        LocateModel::Fail(ErrorKind::BadRequest)
                    } else {
                        LocateModel::Next(
                            LocatePhase::AwaitDirectory { record: rec },
                            ReadRequest::Range {
                                offset: rec.central_directory_offset,
                                length: rec.central_directory_size,
                            },
                        )
                    },
                }
            },
            _ => LocateModel::Fail(ErrorKind::Internal),
        },
        LocatePhase::AwaitDirectory { record } => match event {
            ReadEvent::Bytes(cd) => if cd@.len() != record.central_directory_size {
                LocateModel::Fail(ErrorKind::Internal)
            } else {
                LocateModel::Directory(record, cd@)
            },
            _ => LocateModel::Fail(ErrorKind::Internal),
        },
    }
}

/// `r` is the outcome that model `m` describes.
pub open spec fn located_as(r: Located, m: LocateModel) -> bool {
    match m {
        LocateModel::Next(p, q) => r == Located::Next(p, q),
        LocateModel::Fail(k) => r matches Located::Failed(e) && e.kind() == k,
        LocateModel::Directory(rec, bytes) => r matches Located::Directory(r2, b) && r2 == rec
            && b@ == bytes,
    }
}

/// Rejects archives smaller than 22 bytes or larger than 500 GiB.
pub fn check_archive_size(size: u64) -> (r: Result<(), Error>)
    ensures
        r is Ok <==> !size_rejected(size),
        r is Err ==> r matches Err(Error::BadRequest(_)),
{
    if size < MIN_ARCHIVE_SIZE {
        Err(Error::BadRequest("file too small to be a ZIP archive".to_string()))
    } else if size > MAX_ARCHIVE_SIZE {
        Err(Error::BadRequest("ZIP archive exceeds the 500 GiB limit".to_string()))
    } else {
        Ok(())
    }
}

/// Rejects a located record whose directory is implausible.
pub fn check_directory_limits(rec: &EndOfCentralDirectory, file_size: u64) -> (r: Result<(), Error>)
    ensures
        r is Ok <==> !directory_rejected(*rec, file_size),
        r is Err ==> r matches Err(Error::BadRequest(_)),
{
    if rec.total_entries > MAX_DIRECTORY_ENTRIES {
        Err(Error::BadRequest("too many entries in the archive".to_string()))
    } else if rec.central_directory_size > file_size {
        Err(Error::BadRequest("central directory larger than the file".to_string()))
    } else if rec.central_directory_size > MAX_DIRECTORY_SIZE {
        Err(Error::BadRequest("central directory exceeds the 500 MiB limit".to_string()))
    } else {
        Ok(())
    }
}

fn internal(msg: &str) -> (r: Error)
    ensures
        r is Internal,
{
    Error::Internal(msg.to_string())
}

/// Advances the search for the central directory by one read.
pub fn locate_step(phase: LocatePhase, event: ReadEvent) -> (r: Located)
    ensures
        located_as(r, locate_model(phase, event)),
{
    match phase {
        LocatePhase::AwaitSize => match event {
            ReadEvent::Size(n) => match check_archive_size(n) {
                Err(e) => Located::Failed(e),
                Ok(()) => Located::Next(
                    LocatePhase::AwaitHeader { file_size: n },
                    ReadRequest::Range { offset: 0, length: 4 },
                ),
            },
            _ => Located::Failed(internal("failed to get the archive size")),
        },
        LocatePhase::AwaitHeader { file_size } => match event {
            ReadEvent::Bytes(h) => if h.len() != 4 {
                Located::Failed(internal("archive header read was incomplete"))
            } else if !has_signature(h.as_slice(), 0, 0x03, 0x04) {
                Located::Failed(Error::BadRequest("not a ZIP archive".to_string()))
            } else {
                let tail_len = if file_size < TAIL_WINDOW {
                    file_size
                } else {
                    TAIL_WINDOW
                };
                Located::Next(
                    LocatePhase::AwaitTail { file_size, tail_len },
                    ReadRequest::Range { offset: file_size - tail_len, length: tail_len },
                )
            },
            _ => Located::Failed(internal("failed to read the archive header")),
        },
        LocatePhase::AwaitTail { file_size, tail_len } => match event {
            ReadEvent::Bytes(t) => if t.len() as u64 != tail_len {
                Located::Failed(internal("archive tail read was incomplete"))
            } else {
                match locate_eocd(t.as_slice()) {
                    None => Located::Failed(
                        Error::BadRequest("no end-of-central-directory record found".to_string()),
                    ),
                    Some(rec) => match check_directory_limits(&rec, file_size) {
                        Err(e) => Located::Failed(e),
                        Ok(()) => Located::Next(
                            LocatePhase::AwaitDirectory { record: rec },
                            ReadRequest::Range {
                                offset: rec.central_directory_offset,
                                length: rec.central_directory_size,
                            },
                        ),
                    },
                }
            },
            _ => Located::Failed(internal("failed to read the archive tail")),
        },
        LocatePhase::AwaitDirectory { record } => match event {
            ReadEvent::Bytes(cd) => if cd.len() as u64 != record.central_directory_size {
                Located::Failed(internal("central directory read was incomplete"))
            } else {
                Located::Directory(record, cd)
            },
            _ => Located::Failed(internal("failed to read the central directory")),
        },
    }
}


/// Infers the format of the archive at `path` and refuses, before any read,
/// the formats the engine cannot open.
pub fn route_archive(path: &str) -> (r: Result<ArchiveFormat, Error>)
    ensures
        r is Ok <==> format_of_path(path@).is_supported_spec(),
        r matches Ok(f) ==> f == format_of_path(path@),
        r is Err ==> r matches Err(Error::BadRequest(_)),
{
    let format = archive_format_of(path);
    if format.is_supported() {
        Ok(format)
    } else {
        Err(Error::BadRequest("unsupported archive format".to_string()))
    }
}

/// Bytes read from a given offset when a request names no size (50 MiB).
pub const DEFAULT_RANGE_SIZE: u64 = 52428800;

/// The range a request for the archive's raw bytes from `offset` reads.
pub fn raw_range_request(offset: u64, max_size: Option<u64>) -> (r: ReadRequest)
    ensures
        r == (ReadRequest::Range {
            offset,
            length: match max_size {
                Some(m) => m,
                None => DEFAULT_RANGE_SIZE,
            },
        }),
{
    let length = match max_size {
        Some(m) => m,
        None => DEFAULT_RANGE_SIZE,
    };
    ReadRequest::Range { offset, length }
}

/// A preview holding raw bytes read from a ZIP archive, whole.
pub fn raw_range_preview(content: Vec<u8>) -> (r: FilePreview)
    ensures
        r.content@ == content@,
        r.preview_size == content@.len(),
        r.total_size == content@.len(),
        !r.is_truncated,
{
    let n = content.len() as u64;
    FilePreview { content, is_truncated: false, total_size: n, preview_size: n }
}

/// Where a listing of a ZIP archive stands.
#[derive(Debug, Clone, Copy, PartialEq, Eq, Structural)]
pub enum InventoryPhase {
    Locating(LocatePhase),
    Finished,
}

/// Lists a ZIP archive's entries from its central directory, using only a few
/// bounded reads.
#[derive(Debug, Clone, Copy)]
pub struct InventoryReader {
    pub phase: InventoryPhase,
    pub max_entries: Option<usize>,
}

/// The machine finished with an error of kind `k`.
pub open spec fn fails_with<T>(step: Step<T>, k: ErrorKind) -> bool {
    step matches Step::Done(Err(e)) && e.kind() == k
}

/// One step of a listing.
pub open spec fn inventory_transition(
    old: InventoryReader,
    event: ReadEvent,
    new: InventoryReader,
    step: Step<ArchiveInfo>,
) -> bool {
    &&& new.max_entries == old.max_entries
    &&& match old.phase {
        InventoryPhase::Finished => new.phase == InventoryPhase::Finished
            && fails_with(step, ErrorKind::Internal),
        InventoryPhase::Locating(p) => match locate_model(p, event) {
            LocateModel::Next(p2, q) => new.phase == InventoryPhase::Locating(p2) && step
                == Step::<ArchiveInfo>::Read(q),
            LocateModel::Fail(k) => new.phase == InventoryPhase::Finished
                && fails_with(step, k),
            LocateModel::Directory(rec, cd) => {
                &&& new.phase == InventoryPhase::Finished
                &&& step matches Step::Done(res)
                &&& (res is Ok <==> listed_records(
                    cd,
                    0,
                    parse_limit(rec.total_entries, old.max_entries),
                ) is Some)
                &&& (res matches Ok(info) ==> lists_directory(
                    info,
                    cd,
                    rec.total_entries,
                    old.max_entries,
                ))
                &&& (res matches Err(e) ==> e.kind() == ErrorKind::Internal)
            },
        },
    }
}

impl InventoryReader {
    /// Starts a listing capped at `max_entries`; the first read asks for the
    /// file's size.
    pub fn new(max_entries: Option<usize>) -> (r: (InventoryReader, ReadRequest))
        ensures
            r.0.phase == InventoryPhase::Locating(LocatePhase::AwaitSize),
            r.0.max_entries == max_entries,
            r.1 == ReadRequest::FileSize,
    {
        (
            InventoryReader {
                phase: InventoryPhase::Locating(LocatePhase::AwaitSize),
                max_entries,
            },
            ReadRequest::FileSize,
        )
    }

    /// Feeds the result of the last read and returns the next read to make,
    /// or the listing.
    pub fn advance(self, event: ReadEvent) -> (r: (InventoryReader, Step<ArchiveInfo>))
        ensures
            inventory_transition(self, event, r.0, r.1),
    {
        match self.phase {
            InventoryPhase::Finished => (
                self,
                Step::Done(Err(internal("the listing has already finished"))),
            ),
            InventoryPhase::Locating(p) => match locate_step(p, event) {
                Located::Next(p2, q) => (
                    InventoryReader { phase: InventoryPhase::Locating(p2), ..self },
                    Step::Read(q),
                ),
                Located::Failed(e) => (
                    InventoryReader { phase: InventoryPhase::Finished, ..self },
                    Step::Done(Err(e)),
                ),
                Located::Directory(rec, cd) => {
                    let res = match parse_central_directory(
                        cd.as_slice(),
                        rec.total_entries,
                        self.max_entries,
                    ) {
                        Ok(info) => Ok(info),
                        Err(msg) => Err(Error::Internal(msg)),
                    };
                    (InventoryReader { phase: InventoryPhase::Finished, ..self }, Step::Done(res))
                },
            },
        }
    }
}

/// Where the extraction of one entry stands.
#[derive(Debug)]
pub enum ExtractPhase {
    Locating(LocatePhase),
    AwaitLocalHeader(ZipFileEntry),
    AwaitPayload(ZipFileEntry, u64),
    Finished,
}

/// Extracts one entry of a ZIP archive: finds its central-directory record,
/// re-reads its local header for the true data offset, reads the payload and
/// decompresses it.
#[derive(Debug)]
pub struct EntryExtractor {
    pub phase: ExtractPhase,
    pub target: String,
    pub max_size: Option<u64>,
}

/// One step of an extraction.
pub open spec fn extract_transition(
    old: EntryExtractor,
    event: ReadEvent,
    new: EntryExtractor,
    step: Step<FilePreview>,
) -> bool {
    &&& new.target == old.target
    &&& new.max_size == old.max_size
    &&& match old.phase {
        ExtractPhase::Finished => new.phase is Finished && fails_with(step, ErrorKind::Internal),
        ExtractPhase::Locating(p) => match locate_model(p, event) {
            LocateModel::Next(p2, q) => new.phase == ExtractPhase::Locating(p2) && step
                == Step::<FilePreview>::Read(q),
            LocateModel::Fail(k) => new.phase is Finished && fails_with(step, k),
            LocateModel::Directory(rec, cd) => match record_named(
                cd,
                0,
                encode_utf8(old.target@),
            ) {
                None => new.phase is Finished && fails_with(step, ErrorKind::NotFound),
                Some(off) => if le32(cd, off + 24) > MAX_ENTRY_SIZE {
                    new.phase is Finished && fails_with(step, ErrorKind::BadRequest)
                } else {
                    new.phase matches ExtractPhase::AwaitLocalHeader(e) && zip_entry_describes(
                        e,
                        cd,
                        off,
                    ) && step == Step::<FilePreview>::Read(
                        ReadRequest::Range { offset: e.local_header_offset, length: 30 },
                    )
                },
            },
        },
        ExtractPhase::AwaitLocalHeader(entry) => match event {
            ReadEvent::Bytes(h) => if h@.len() != 30 || entry.local_header_offset > u32::MAX {
                new.phase is Finished && fails_with(step, ErrorKind::Internal)
            } else {
                new.phase == ExtractPhase::AwaitPayload(entry, read_size_for(entry, old.max_size))
                    && step == Step::<FilePreview>::Read(
                    ReadRequest::Range {
                        offset: data_offset(entry, h@) as u64,
                        length: read_size_for(entry, old.max_size),
                    },
                )
            },
            _ => new.phase is Finished && fails_with(step, ErrorKind::Internal),
        },
        ExtractPhase::AwaitPayload(entry, read_size) => new.phase is Finished && match event {
            ReadEvent::Bytes(p) => step matches Step::Done(res) && payload_outcome(
                res,
                entry,
                p@,
                read_size,
            ),
            _ => fails_with(step, ErrorKind::Internal),
        },
    }
}

/// `res` is what decoding `payload` for `entry` gives when `read_size` bytes
/// were asked for.
pub open spec fn payload_outcome(
    res: Result<FilePreview, Error>,
    entry: ZipFileEntry,
    payload: Seq<u8>,
    read_size: u64,
) -> bool {
    &&& (res is Ok <==> payload.len() == read_size && decoded_content(
        entry.compression_method,
        payload,
    ) is Some)
    &&& (res matches Ok(p) ==> preview_of(
        p,
        entry,
        decoded_content(entry.compression_method, payload)->0,
    ))
    &&& (res matches Err(e) ==> {
        if payload.len() == read_size && entry.compression_method != 0
            && entry.compression_method != 8 {
            e matches Error::BadRequest(m) && m@ == "unsupported compression method: "@ + decimal(
                entry.compression_method as nat,
            )
        } else {
            e.kind() == ErrorKind::Internal
        }
    })
}

impl EntryExtractor {
    /// Starts the extraction of the entry named `target`, reading at most
    /// `max_size` bytes of its payload; the first read asks for the file's
    /// size.
    pub fn new(target: String, max_size: Option<u64>) -> (r: (EntryExtractor, ReadRequest))
        ensures
            r.0.phase == ExtractPhase::Locating(LocatePhase::AwaitSize),
            r.0.target == target,
            r.0.max_size == max_size,
            r.1 == ReadRequest::FileSize,
    {
        (
            EntryExtractor {
                phase: ExtractPhase::Locating(LocatePhase::AwaitSize),
                target,
                max_size,
            },
            ReadRequest::FileSize,
        )
    }

    /// Feeds the result of the last read and returns the next read to make,
    /// or the entry's preview.
    pub fn advance(self, event: ReadEvent) -> (r: (EntryExtractor, Step<FilePreview>))
        ensures
            extract_transition(self, event, r.0, r.1),
    {
        let EntryExtractor { phase, target, max_size } = self;
        match phase {
            ExtractPhase::Finished => (
                EntryExtractor { phase: ExtractPhase::Finished, target, max_size },
                Step::Done(Err(internal("the extraction has already finished"))),
            ),
            ExtractPhase::Locating(p) => match locate_step(p, event) {
                Located::Next(p2, q) => (
                    EntryExtractor { phase: ExtractPhase::Locating(p2), target, max_size },
                    Step::Read(q),
                ),
                Located::Failed(e) => (
                    EntryExtractor { phase: ExtractPhase::Finished, target, max_size },
                    Step::Done(Err(e)),
                ),
                Located::Directory(_rec, cd) => {
                    match find_file_in_central_directory(cd.as_slice(), target.as_str()) {
                        Err(msg) => (
                            EntryExtractor { phase: ExtractPhase::Finished, target, max_size },
                            Step::Done(Err(Error::NotFound(msg))),
                        ),
                        Ok(entry) => match check_entry_size(&entry) {
                            Err(e) => (
                                EntryExtractor { phase: ExtractPhase::Finished, target, max_size },
                                Step::Done(Err(e)),
                            ),
                            Ok(()) => {
                                let offset = entry.local_header_offset;
                                (
                                    EntryExtractor {
                                        phase: ExtractPhase::AwaitLocalHeader(entry),
                                        target,
                                        max_size,
                                    },
                                    Step::Read(
                                        ReadRequest::Range { offset, length: LOCAL_HEADER_SIZE },
                                    ),
                                )
                            },
                        },
                    }
                },
            },
            ExtractPhase::AwaitLocalHeader(entry) => match event {
                ReadEvent::Bytes(h) => match local_data_offset(&entry, h.as_slice()) {
                    Err(e) => (
                        EntryExtractor { phase: ExtractPhase::Finished, target, max_size },
                        Step::Done(Err(e)),
                    ),
                    Ok(offset) => {
                        let length = payload_read_size(&entry, max_size);
                        (
                            EntryExtractor {
                                phase: ExtractPhase::AwaitPayload(entry, length),
                                target,
                                max_size,
                            },
                            Step::Read(ReadRequest::Range { offset, length }),
                        )
                    },
                },
                _ => (
                    EntryExtractor { phase: ExtractPhase::Finished, target, max_size },
                    Step::Done(Err(internal("failed to read the local file header"))),
                ),
            },
            ExtractPhase::AwaitPayload(entry, read_size) => {
                let res = match event {
                    ReadEvent::Bytes(p) => decode_payload(&entry, p.as_slice(), read_size),
                    _ => Err(internal("failed to read the entry data")),
                };
                (EntryExtractor { phase: ExtractPhase::Finished, target, max_size }, Step::Done(res))
            },
        }
    }
}


/// Whatever the file's size, an archive whose first four bytes are not the
/// local-file-header signature `50 4B 03 04` is refused as a bad request:
/// either its size is refused at once, or the header read that follows is.
pub proof fn lemma_bad_signature_is_bad_request(size: u64, header: Vec<u8>)
    requires
        header@.len() == 4,
        !signature_at(header@, 0, 0x03, 0x04),
    ensures
        match locate_model(LocatePhase::AwaitSize, ReadEvent::Size(size)) {
            LocateModel::Fail(k) => k == ErrorKind::BadRequest,
            LocateModel::Next(p, q) => q == (ReadRequest::Range { offset: 0, length: 4 })
                && locate_model(p, ReadEvent::Bytes(header)) == LocateModel::Fail(
                ErrorKind::BadRequest,
            ),
            LocateModel::Directory(..) => false,
        },
{
}

/// Bytes that a read at `phase` must return in full.
pub open spec fn expected_len(phase: LocatePhase) -> int {
    match phase {
        LocatePhase::AwaitSize => 0,
        LocatePhase::AwaitHeader { .. } => 4,
        LocatePhase::AwaitTail { tail_len, .. } => tail_len as int,
        LocatePhase::AwaitDirectory { record } => record.central_directory_size as int,
    }
}

/// A read of a fixed length that comes back short, during the search for the
/// central directory, is an internal failure and never a shorter result.
pub proof fn lemma_short_read_is_internal(phase: LocatePhase, bytes: Vec<u8>)
    requires
        bytes@.len() < expected_len(phase),
    ensures
        locate_model(phase, ReadEvent::Bytes(bytes)) == LocateModel::Fail(ErrorKind::Internal),
{
}

/// A short read of the local file header or of the entry's payload ends the
/// extraction as an internal failure.
pub proof fn lemma_short_entry_read_is_internal(
    old: EntryExtractor,
    bytes: Vec<u8>,
    new: EntryExtractor,
    step: Step<FilePreview>,
)
    requires
        extract_transition(old, ReadEvent::Bytes(bytes), new, step),
        match old.phase {
            ExtractPhase::AwaitLocalHeader(_) => bytes@.len() < 30,
            ExtractPhase::AwaitPayload(_, read_size) => bytes@.len() < read_size,
            _ => false,
        },
    ensures
        fails_with(step, ErrorKind::Internal),
{
}

/// An end record that declares more than 1,000,000 entries ends the search
/// as a bad request: the central directory is never asked for.
pub proof fn lemma_too_many_entries_is_bad_request(file_size: u64, tail_len: u64, tail: Vec<u8>)
    requires
        tail@.len() == tail_len,
        located_eocd(tail@) is Some,
        located_eocd(tail@)->0.total_entries > MAX_DIRECTORY_ENTRIES,
    ensures
        locate_model(LocatePhase::AwaitTail { file_size, tail_len }, ReadEvent::Bytes(tail))
            == LocateModel::Fail(ErrorKind::BadRequest),
{
}


/// Bytes a backend holding `file` returns for `[offset, offset + length)`:
/// the range, cut short at the end of the file.
pub open spec fn range_of(file: Seq<u8>, offset: int, length: int) -> Seq<u8> {
    let start = if offset < file.len() {
        offset
    } else {
        file.len() as int
    };
    let end = if offset + length < file.len() {
        offset + length
    } else {
        file.len() as int
    };
    file.subrange(start, end)
}

/// `event` is how a backend holding `file` answers `request`.
pub open spec fn serves(file: Seq<u8>, request: ReadRequest, event: ReadEvent) -> bool {
    match request {
        ReadRequest::FileSize => event == ReadEvent::Size(file.len() as u64),
        ReadRequest::Range { offset, length } => event matches ReadEvent::Bytes(b) && b@
            == range_of(file, offset as int, length as int),
    }
}

/// The tail window of a file.
pub open spec fn tail_of(file: Seq<u8>) -> Seq<u8> {
    let size = file.len() as int;
    file.subrange(size - tail_len_for(size as u64), size)
}

/// The end record that the tail window of `file` holds.
pub open spec fn end_record_of(file: Seq<u8>) -> EndOfCentralDirectory {
    located_eocd(tail_of(file))->0
}

/// The central directory of the ZIP archive `file`, as the record in its
/// tail window locates it (cut short where it runs past the end of the file).
pub open spec fn directory_of(file: Seq<u8>) -> Seq<u8> {
    let rec = end_record_of(file);
    range_of(file, rec.central_directory_offset as int, rec.central_directory_size as int)
}

/// Entries the record in the tail window of `file` declares.
pub open spec fn declared_entries(file: Seq<u8>) -> u64 {
    end_record_of(file).total_entries
}

/// How the search for the central directory of `file` fails, if it does:
/// a refused size, a wrong leading signature, no genuine or an implausible
/// end record (each a bad request), or a central directory that runs past
/// the end of the file (an internal failure, the read coming back short).
pub open spec fn locate_failure(file: Seq<u8>) -> Option<ErrorKind> {
    let n = file.len() as u64;
    if size_rejected(n) {
        Some(ErrorKind::BadRequest)
    } else if !signature_at(file, 0, 0x03, 0x04) {
        Some(ErrorKind::BadRequest)
    } else if located_eocd(tail_of(file)) is None {
        Some(ErrorKind::BadRequest)
    } else if directory_rejected(end_record_of(file), n) {
        Some(ErrorKind::BadRequest)
    } else if directory_of(file).len() != end_record_of(file).central_directory_size {
        Some(ErrorKind::Internal)
    } else {
        None
    }
}

/// How listing the ZIP archive `file` fails, if it does: the search for the
/// directory fails, or a record in it lacks its signature (internal).
pub open spec fn listing_failure(file: Seq<u8>, max_entries: Option<usize>) -> Option<ErrorKind> {
    match locate_failure(file) {
        Some(k) => Some(k),
        None => if listed_records(
            directory_of(file),
            0,
            parse_limit(declared_entries(file), max_entries),
        ) is None {
            Some(ErrorKind::Internal)
        } else {
            None
        },
    }
}

/// Offset, in the central directory, of the record of the entry `target`.
pub open spec fn entry_record(file: Seq<u8>, target: Seq<char>) -> int {
    record_named(directory_of(file), 0, encode_utf8(target))->0
}

/// A little-endian field of the record of entry `target`.
pub open spec fn entry_field32(file: Seq<u8>, target: Seq<char>, at: int) -> int {
    le32(directory_of(file), entry_record(file, target) + at)
}

/// The local file header of entry `target`, as read from the file.
pub open spec fn entry_header(file: Seq<u8>, target: Seq<char>) -> Seq<u8> {
    range_of(file, entry_field32(file, target, 42), 30)
}

/// Where the data of entry `target` starts.
pub open spec fn entry_data_start(file: Seq<u8>, target: Seq<char>) -> int {
    let header = entry_header(file, target);
    entry_field32(file, target, 42) + 30 + le16(header, 26) + le16(header, 28)
}

/// Payload bytes read for entry `target`: its compressed size, capped by
/// `max_size`.
pub open spec fn entry_read_len(file: Seq<u8>, target: Seq<char>, max_size: Option<u64>) -> int {
    let compressed = entry_field32(file, target, 20);
    match max_size {
        Some(m) => if m < compressed {
            m as int
        } else {
            compressed
        },
        None => compressed,
    }
}

/// The payload bytes read for entry `target`.
pub open spec fn entry_payload(file: Seq<u8>, target: Seq<char>, max_size: Option<u64>) -> Seq<u8> {
    range_of(file, entry_data_start(file, target), entry_read_len(file, target, max_size))
}

/// The compression method of entry `target`.
pub open spec fn entry_method(file: Seq<u8>, target: Seq<char>) -> u16 {
    le16(directory_of(file), entry_record(file, target) + 10) as u16
}

/// The content of the entry named `target` of the ZIP archive `file`, read
/// with at most `max_size` payload bytes.
pub open spec fn entry_content(file: Seq<u8>, target: Seq<char>, max_size: Option<u64>) -> Seq<
    u8,
> {
    decoded_content(entry_method(file, target), entry_payload(file, target, max_size))->0
}

/// How extracting entry `target` of the ZIP archive `file` fails, if it
/// does: the search for the directory fails; no record has that name (not
/// found); the entry declares more than 100 MiB (bad request); the local
/// header or the payload runs past the end of the file (internal); or the
/// payload does not decode: an unknown method is a bad request, a corrupt
/// deflate stream internal.
pub open spec fn extraction_failure(file: Seq<u8>, target: Seq<char>, max_size: Option<u64>) -> Option<
    ErrorKind,
> {
    match locate_failure(file) {
        Some(k) => Some(k),
        None => if record_named(directory_of(file), 0, encode_utf8(target)) is None {
            Some(ErrorKind::NotFound)
        } else if entry_field32(file, target, 24) > MAX_ENTRY_SIZE {
            Some(ErrorKind::BadRequest)
        } else if entry_header(file, target).len() != 30 {
            Some(ErrorKind::Internal)
        } else if entry_payload(file, target, max_size).len() != entry_read_len(
            file,
            target,
            max_size,
        ) {
            Some(ErrorKind::Internal)
        } else if decoded_content(
            entry_method(file, target),
            entry_payload(file, target, max_size),
        ) is None {
            if entry_method(file, target) != 0 && entry_method(file, target) != 8 {
                Some(ErrorKind::BadRequest)
            } else {
                Some(ErrorKind::Internal)
            }
        } else {
            None
        }
    }
}

/// `p` is the preview of entry `target` of `file`: its content, the
/// content's length, the declared uncompressed size, and whether the content
/// is shorter than that size.
pub open spec fn previews_entry(p: FilePreview, file: Seq<u8>, target: Seq<char>, max_size: Option<u64>) -> bool {
    let content = entry_content(file, target, max_size);
    &&& p.content@ == content
    &&& p.preview_size == content.len()
    &&& p.total_size == entry_field32(file, target, 24)
    &&& p.is_truncated == (content.len() < entry_field32(file, target, 24))
}

/// A listing whose every read is answered from the same archive `file`, and
/// which succeeds, lists exactly the central directory that the archive's
/// end record points to, capped as asked.
pub proof fn lemma_listing_reads_the_archive(
    file: Seq<u8>,
    m0: InventoryReader,
    e0: ReadEvent,
    m1: InventoryReader,
    q1: ReadRequest,
    e1: ReadEvent,
    m2: InventoryReader,
    q2: ReadRequest,
    e2: ReadEvent,
    m3: InventoryReader,
    q3: ReadRequest,
    e3: ReadEvent,
    m4: InventoryReader,
    info: ArchiveInfo,
)
    requires
        file.len() <= u64::MAX,
        m0.phase == InventoryPhase::Locating(LocatePhase::AwaitSize),
        serves(file, ReadRequest::FileSize, e0),
        inventory_transition(m0, e0, m1, Step::Read(q1)),
        serves(file, q1, e1),
        inventory_transition(m1, e1, m2, Step::Read(q2)),
        serves(file, q2, e2),
        inventory_transition(m2, e2, m3, Step::Read(q3)),
        serves(file, q3, e3),
        inventory_transition(m3, e3, m4, Step::Done(Ok(info))),
    ensures
        lists_directory(info, directory_of(file), declared_entries(file), m0.max_entries),
{
    let n = file.len() as u64;
    assert(m1.phase == InventoryPhase::Locating(LocatePhase::AwaitHeader { file_size: n }));
    let tl = tail_len_for(n);
    assert(m2.phase == InventoryPhase::Locating(
        LocatePhase::AwaitTail { file_size: n, tail_len: tl },
    ));
    let tail = file.subrange(n - tl, n as int);
    assert(e2 matches ReadEvent::Bytes(b) && b@ == tail);
    let rec = located_eocd(tail)->0;
    assert(m3.phase == InventoryPhase::Locating(LocatePhase::AwaitDirectory { record: rec }));
}

/// Extraction depends on the archive's bytes alone: a run of the extractor
/// whose every read is answered from the same unmodified archive `file`, and
/// which succeeds, yields exactly the preview `previews_entry` describes:
/// content, preview size, total size and truncation flag are functions of
/// `file`, the target and the cap. So extracting the same entry twice yields
/// byte-identical content and equal sizes and flags.
pub proof fn lemma_extracted_content_is_determined_by_archive(
    file: Seq<u8>,
    m0: EntryExtractor,
    e0: ReadEvent,
    m1: EntryExtractor,
    q1: ReadRequest,
    e1: ReadEvent,
    m2: EntryExtractor,
    q2: ReadRequest,
    e2: ReadEvent,
    m3: EntryExtractor,
    q3: ReadRequest,
    e3: ReadEvent,
    m4: EntryExtractor,
    q4: ReadRequest,
    e4: ReadEvent,
    m5: EntryExtractor,
    q5: ReadRequest,
    e5: ReadEvent,
    m6: EntryExtractor,
    preview: FilePreview,
)
    requires
        file.len() <= u64::MAX,
        m0.phase == ExtractPhase::Locating(LocatePhase::AwaitSize),
        serves(file, ReadRequest::FileSize, e0),
        extract_transition(m0, e0, m1, Step::Read(q1)),
        serves(file, q1, e1),
        extract_transition(m1, e1, m2, Step::Read(q2)),
        serves(file, q2, e2),
        extract_transition(m2, e2, m3, Step::Read(q3)),
        serves(file, q3, e3),
        extract_transition(m3, e3, m4, Step::Read(q4)),
        serves(file, q4, e4),
        extract_transition(m4, e4, m5, Step::Read(q5)),
        serves(file, q5, e5),
        extract_transition(m5, e5, m6, Step::Done(Ok(preview))),
    ensures
        previews_entry(preview, file, m0.target@, m0.max_size),
{
    let n = file.len() as u64;
    assert(m1.phase == ExtractPhase::Locating(LocatePhase::AwaitHeader { file_size: n }));
    let tl = tail_len_for(n);
    assert(m2.phase == ExtractPhase::Locating(LocatePhase::AwaitTail { file_size: n, tail_len: tl }));
    assert(q2 == ReadRequest::Range { offset: (n - tl) as u64, length: tl });
    let tail = file.subrange(n - tl, n as int);
    assert(e2 matches ReadEvent::Bytes(b) && b@ == tail);
    let rec = located_eocd(tail)->0;
    assert(m3.phase == ExtractPhase::Locating(LocatePhase::AwaitDirectory { record: rec }));
    let cd = range_of(file, rec.central_directory_offset as int, rec.central_directory_size as int);
    assert(e3 matches ReadEvent::Bytes(b) && b@ == cd);
    let off = record_named(cd, 0, encode_utf8(m0.target@))->0;
    assert(m4.phase matches ExtractPhase::AwaitLocalHeader(e) && zip_entry_describes(e, cd, off));
    let entry = m4.phase->AwaitLocalHeader_0;
    let header = range_of(file, entry.local_header_offset as int, 30);
    assert(e4 matches ReadEvent::Bytes(b) && b@ == header);
    let rs = read_size_for(entry, m0.max_size);
    assert(m5.phase == ExtractPhase::AwaitPayload(entry, rs));
    assert(q5 == ReadRequest::Range { offset: data_offset(entry, header) as u64, length: rs });
}


/// Answers `request` from the archive bytes `data` held in memory.
pub fn serve_from_memory(data: &[u8], request: ReadRequest) -> (e: ReadEvent)
    ensures
        serves(data@, request, e),
{
    match request {
        ReadRequest::FileSize => ReadEvent::Size(data.len() as u64),
        ReadRequest::Range { offset, length } => {
            let len = data.len() as u64;
            let start = if offset < len {
                offset
            } else {
                len
            };
            let end = if length <= u64::MAX - offset && offset + length < len {
                offset + length
            } else {
                len
            };
            let bytes = vstd::slice::slice_to_vec(
                vstd::slice::slice_subrange(data, start as usize, end as usize),
            );
            ReadEvent::Bytes(bytes)
        },
    }
}

/// Lists the ZIP archive held in memory in `data`, capped at `max_entries`.
/// It succeeds exactly where `listing_failure` names no failure, and fails
/// with the kind it names.
pub fn list_zip_in_memory(data: &[u8], max_entries: Option<usize>) -> (r: Result<ArchiveInfo, Error>)
    ensures
        r is Ok <==> listing_failure(data@, max_entries) is None,
        r matches Err(e) ==> listing_failure(data@, max_entries) == Some(e.kind()),
        r matches Ok(info) ==> lists_directory(
            info,
            directory_of(data@),
            declared_entries(data@),
            max_entries,
        ),
{
    let size = data.len();
    assert(data@.len() == size && size <= u64::MAX);
    let (m0, q0) = InventoryReader::new(max_entries);
    let e0 = serve_from_memory(data, q0);
    let ghost g0 = e0;
    let (m1, s1) = m0.advance(e0);
    let q1 = match s1 {
        Step::Read(q) => q,
        Step::Done(r) => return r,
    };
    let e1 = serve_from_memory(data, q1);
    let ghost g1 = e1;
    let (m2, s2) = m1.advance(e1);
    let q2 = match s2 {
        Step::Read(q) => q,
        Step::Done(r) => return r,
    };
    let e2 = serve_from_memory(data, q2);
    let ghost g2 = e2;
    let (m3, s3) = m2.advance(e2);
    let q3 = match s3 {
        Step::Read(q) => q,
        Step::Done(r) => return r,
    };
    let e3 = serve_from_memory(data, q3);
    let ghost g3 = e3;
    let (m4, s4) = m3.advance(e3);
    match s4 {
        Step::Done(Ok(info)) => {
            proof {
                lemma_listing_reads_the_archive(
                    data@, m0, g0, m1, q1, g1, m2, q2, g2, m3, q3, g3, m4, info,
                );
            }
            Ok(info)
        },
        Step::Done(Err(e)) => Err(e),
        Step::Read(_) => Err(internal("the listing asked for more reads than it needs")),
    }
}


/// Extracts the entry named `target` from the ZIP archive held in memory in
/// `data`, reading at most `max_size` bytes of its payload. It succeeds
/// exactly where `extraction_failure` names no failure, and fails with the
/// kind it names.
pub fn extract_zip_in_memory(data: &[u8], target: &str, max_size: Option<u64>) -> (r: Result<
    FilePreview,
    Error,
>)
    ensures
        r is Ok <==> extraction_failure(data@, target@, max_size) is None,
        r matches Err(e) ==> extraction_failure(data@, target@, max_size) == Some(e.kind()),
        r matches Ok(p) ==> previews_entry(p, data@, target@, max_size),
{
    let size = data.len();
    assert(data@.len() == size && size <= u64::MAX);
    let (m0, q0) = EntryExtractor::new(target.to_string(), max_size);
    let ghost t0 = m0;
    let e0 = serve_from_memory(data, q0);
    let ghost g0 = e0;
    let (m1, s1) = m0.advance(e0);
    let ghost t1 = m1;
    let q1 = match s1 {
        Step::Read(q) => q,
        Step::Done(r) => return r,
    };
    let e1 = serve_from_memory(data, q1);
    let ghost g1 = e1;
    let (m2, s2) = m1.advance(e1);
    let ghost t2 = m2;
    let q2 = match s2 {
        Step::Read(q) => q,
        Step::Done(r) => return r,
    };
    let e2 = serve_from_memory(data, q2);
    let ghost g2 = e2;
    let (m3, s3) = m2.advance(e2);
    let ghost t3 = m3;
    let q3 = match s3 {
        Step::Read(q) => q,
        Step::Done(r) => return r,
    };
    let e3 = serve_from_memory(data, q3);
    let ghost g3 = e3;
    let (m4, s4) = m3.advance(e3);
    let ghost t4 = m4;
    let q4 = match s4 {
        Step::Read(q) => q,
        Step::Done(r) => return r,
    };
    let e4 = serve_from_memory(data, q4);
    let ghost g4 = e4;
    let (m5, s5) = m4.advance(e4);
    let ghost t5 = m5;
    let q5 = match s5 {
        Step::Read(q) => q,
        Step::Done(r) => return r,
    };
    let e5 = serve_from_memory(data, q5);
    let ghost g5 = e5;
    let (m6, s6) = m5.advance(e5);
    match s6 {
        Step::Done(Ok(p)) => {
            proof {
                lemma_extracted_content_is_determined_by_archive(
                    data@, t0, g0, t1, q1, g1, t2, q2, g2, t3, q3, g3, t4, q4, g4, t5, q5, g5, m6, p,
                );
            }
            Ok(p)
        },
        Step::Done(Err(e)) => Err(e),
        Step::Read(_) => Err(internal("the extraction asked for more reads than it needs")),
    }
}


/// With a cap below its compressed size, a stored entry is read as exactly
/// the capped number of bytes from its data offset (the offset its own local
/// header gives), and a payload read that returns them yields exactly those
/// bytes, marked truncated when they are fewer than the declared size.
pub proof fn lemma_capped_stored_read(
    old: EntryExtractor,
    header: Vec<u8>,
    mid: EntryExtractor,
    request: ReadRequest,
    payload: Vec<u8>,
    new: EntryExtractor,
    step: Step<FilePreview>,
)
    requires
        old.phase matches ExtractPhase::AwaitLocalHeader(e) && e.compression_method == 0
            && e.local_header_offset <= u32::MAX,
        old.max_size matches Some(m) && m < old.phase->AwaitLocalHeader_0.compressed_size,
        header@.len() == 30,
        extract_transition(old, ReadEvent::Bytes(header), mid, Step::Read(request)),
        payload@.len() == old.max_size->0,
        extract_transition(mid, ReadEvent::Bytes(payload), new, step),
    ensures
        ({
            let e = old.phase->AwaitLocalHeader_0;
            let m = old.max_size->0;
            &&& request == (ReadRequest::Range {
                offset: data_offset(e, header@) as u64,
                length: m,
            })
            &&& step matches Step::Done(Ok(p))
            &&& p.content@ == payload@
            &&& p.preview_size == m
            &&& p.total_size == e.uncompressed_size
            &&& p.is_truncated == (m < e.uncompressed_size)
        }),
{
}

/// A located end record whose directory is implausible (more than 1,000,000
/// entries, larger than the file, or over 500 MiB) ends a listing as a bad
/// request: the step is final, so the central directory is never read.
pub proof fn lemma_implausible_directory_is_never_read(
    old: InventoryReader,
    tail: Vec<u8>,
    new: InventoryReader,
    step: Step<ArchiveInfo>,
)
    requires
        old.phase matches InventoryPhase::Locating(LocatePhase::AwaitTail { file_size, tail_len })
            && tail@.len() == tail_len && located_eocd(tail@) is Some && directory_rejected(
            located_eocd(tail@)->0,
            file_size,
        ),
        inventory_transition(old, ReadEvent::Bytes(tail), new, step),
    ensures
        step matches Step::Done(Err(e)) && e.kind() == ErrorKind::BadRequest,
        new.phase == InventoryPhase::Finished,
{
}

} // verus!
