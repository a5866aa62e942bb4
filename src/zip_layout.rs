//! Byte layout of the ZIP records this library reads: the end-of-central-
//! directory record, central-directory file headers and local file headers.

use vstd::prelude::*;

verus! {

/// Size of the fixed part of the end-of-central-directory record.
pub const EOCD_SIZE: usize = 22;

/// Size of the fixed part of a central-directory file header.
pub const CD_HEADER_SIZE: usize = 46;

/// Size of the fixed part of a local file header.
pub const LOCAL_HEADER_SIZE: u64 = 30;

/// Little-endian 16-bit value stored at `d[i..i + 2]`.
pub open spec fn le16(d: Seq<u8>, i: int) -> int {
    d[i] as int + d[i + 1] as int * 256
}

/// Little-endian 32-bit value stored at `d[i..i + 4]`.
pub open spec fn le32(d: Seq<u8>, i: int) -> int {
    le16(d, i) + le16(d, i + 2) * 65536
}

/// The four bytes at `i` are `P K b2 b3`, the shape of every ZIP signature.
pub open spec fn signature_at(d: Seq<u8>, i: int, b2: u8, b3: u8) -> bool {
    &&& 0 <= i
    &&& i + 4 <= d.len()
    &&& d[i] == 0x50u8
    &&& d[i + 1] == 0x4bu8
    &&& d[i + 2] == b2
    &&& d[i + 3] == b3
}

/// Reads a little-endian `u16` at `i`.
pub fn read_u16_le(d: &[u8], i: usize) -> (r: u16)
    requires
        i + 2 <= d.len(),
    ensures
        r as int == le16(d@, i as int),
{
    d[i] as u16 + (d[i + 1] as u16) * 256
}

/// Reads a little-endian `u32` at `i`.
pub fn read_u32_le(d: &[u8], i: usize) -> (r: u32)
    requires
        i + 4 <= d.len(),
    ensures
        r as int == le32(d@, i as int),
{
    let lo = read_u16_le(d, i) as u32;
    let hi = read_u16_le(d, i + 2) as u32;
    lo + hi * 65536
}

/// Tests for the signature `P K b2 b3` at `i`.
pub fn has_signature(d: &[u8], i: usize, b2: u8, b3: u8) -> (r: bool)
    requires
        i + 4 <= d.len(),
    ensures
        r == signature_at(d@, i as int, b2, b3),
{
    d[i] == 0x50 && d[i + 1] == 0x4b && d[i + 2] == b2 && d[i + 3] == b3
}

/// A genuine end-of-central-directory record starts at `i`: the signature
/// `50 4B 05 06` is there and the record's comment reaches exactly to the end
/// of `d`.
pub open spec fn is_eocd_at(d: Seq<u8>, i: int) -> bool {
    &&& 0 <= i
    &&& i + 22 <= d.len()
    &&& signature_at(d, i, 0x05, 0x06)
    &&& i + 22 + le16(d, i + 20) == d.len()
}

/// The last position `p <= i` at which a genuine record starts.
pub open spec fn last_eocd_from(d: Seq<u8>, i: int) -> Option<int>
    decreases i + 1,
{
    if i < 0 {
        None
    } else if is_eocd_at(d, i) {
        Some(i)
    } else {
        last_eocd_from(d, i - 1)
    }
}

/// Position of the record found by scanning `d` backwards from its end.
pub open spec fn eocd_position(d: Seq<u8>) -> Option<int> {
    last_eocd_from(d, d.len() - 22)
}

/// Scans `data` backwards for the end-of-central-directory record and returns
/// its position, the one closest to the end of `data`.
pub fn find_eocd(data: &[u8]) -> (r: Option<usize>)
    ensures
        r is Some <==> eocd_position(data@) is Some,
        r is Some ==> eocd_position(data@) == Some(r->0 as int),
{
    if data.len() < EOCD_SIZE {
        return None;
    }
    let mut i: usize = data.len() - EOCD_SIZE + 1;
    while i > 0
        invariant
            22 <= data@.len(),
            i <= data@.len() - 21,
            eocd_position(data@) == last_eocd_from(data@, i - 1),
        decreases i,
    {
        i = i - 1;
        if has_signature(data, i, 0x05, 0x06) {
            let comment_len = read_u16_le(data, i + 20) as usize;
            if comment_len == data.len() - i - EOCD_SIZE {
                return Some(i);
            }
        }
    }
    None
}


/// The fields of an end-of-central-directory record that locate the
/// central directory.
#[derive(Clone, Copy, Debug, PartialEq, Eq, Structural)]
pub struct EndOfCentralDirectory {
    pub total_entries: u64,
    pub central_directory_size: u64,
    pub central_directory_offset: u64,
    pub comment_length: u64,
}

/// The record decoded from the bytes at `p`.
pub open spec fn eocd_fields(d: Seq<u8>, p: int) -> EndOfCentralDirectory {
    EndOfCentralDirectory {
        total_entries: le16(d, p + 10) as u64,
        central_directory_size: le32(d, p + 12) as u64,
        central_directory_offset: le32(d, p + 16) as u64,
        comment_length: le16(d, p + 20) as u64,
    }
}

/// The record located by the backward scan, if there is one.
pub open spec fn located_eocd(d: Seq<u8>) -> Option<EndOfCentralDirectory> {
    match eocd_position(d) {
        Some(p) => Some(eocd_fields(d, p)),
        None => None,
    }
}

/// A position the backward scan returns always holds a genuine record.
pub proof fn lemma_last_eocd_is_genuine(d: Seq<u8>, i: int)
    ensures
        last_eocd_from(d, i) matches Some(p) ==> is_eocd_at(d, p) && p <= i,
    decreases i + 1,
{
    if i >= 0 && !is_eocd_at(d, i) {
        lemma_last_eocd_is_genuine(d, i - 1);
    }
}

/// Decodes the record at `p`.
pub fn read_eocd_fields(d: &[u8], p: usize) -> (r: EndOfCentralDirectory)
    requires
        p + 22 <= d.len(),
    ensures
        r == eocd_fields(d@, p as int),
{
    EndOfCentralDirectory {
        total_entries: read_u16_le(d, p + 10) as u64,
        central_directory_size: read_u32_le(d, p + 12) as u64,
        central_directory_offset: read_u32_le(d, p + 16) as u64,
        comment_length: read_u16_le(d, p + 20) as u64,
    }
}

/// Locates the end-of-central-directory record in `data` and decodes it.
pub fn locate_eocd(data: &[u8]) -> (r: Option<EndOfCentralDirectory>)
    ensures
        r == located_eocd(data@),
{
    match find_eocd(data) {
        Some(p) => {
            proof {
                lemma_last_eocd_is_genuine(data@, data@.len() - 22);
            }
            Some(read_eocd_fields(data, p))
        },
        None => None,
    }
}

/// Locates the end-of-central-directory record in `eocd_data` and returns the
/// central directory's offset and size.
pub fn parse_eocd_record(eocd_data: &[u8], _file_size: u64) -> (r: Result<(u64, u64), String>)
    ensures
        r is Ok <==> located_eocd(eocd_data@) is Some,
        r matches Ok((offset, size)) ==> offset == located_eocd(eocd_data@)->0.central_directory_offset
            && size == located_eocd(eocd_data@)->0.central_directory_size,
{
    match locate_eocd(eocd_data) {
        Some(rec) => Ok((rec.central_directory_offset, rec.central_directory_size)),
        None => Err("no end-of-central-directory record found".to_string()),
    }
}

/// Start of the window of at most 64 KiB at the end of a file of `size` bytes.
pub open spec fn tail_start(size: int) -> int {
    if size <= 65536 {
        0
    } else {
        size - 65536
    }
}

proof fn lemma_scan_window(d: Seq<u8>, s: int, i: int)
    requires
        0 <= s <= d.len(),
        -1 <= i <= d.len() - s - 22,
    ensures
        ({
            let t = d.subrange(s, d.len() as int);
            match last_eocd_from(t, i) {
                Some(q) => last_eocd_from(d, i + s) == Some(q + s),
                None => last_eocd_from(d, i + s) == last_eocd_from(d, s - 1),
            }
        }),
    decreases i + 1,
{
    let t = d.subrange(s, d.len() as int);
    if i >= 0 {
        assert(is_eocd_at(t, i) == is_eocd_at(d, i + s));
        lemma_scan_window(d, s, i - 1);
    }
}

/// Locating the end-of-central-directory record in the last 64 KiB of a file
/// (the whole file when it is smaller) finds the record that a scan of the
/// whole file finds, at the same place and with the same fields, whenever that
/// record starts inside the window; and whatever the window finds, the whole
/// file scan finds too. A record outside the window can only start in the 21
/// bytes before it, where a comment of more than 65514 bytes puts it.
pub proof fn lemma_tail_window_locates_same_record(file: Seq<u8>)
    requires
        file.len() >= 22,
    ensures
        ({
            let s = tail_start(file.len() as int);
            let t = file.subrange(s, file.len() as int);
            &&& eocd_position(t) matches Some(q) ==> eocd_position(file) == Some(q + s)
            &&& (eocd_position(file) is Some && eocd_position(file)->0 >= s) ==> eocd_position(t)
                == Some(eocd_position(file)->0 - s)
            &&& eocd_position(t) is Some ==> located_eocd(t) == located_eocd(file)
            &&& (eocd_position(file) is Some && eocd_position(file)->0 >= s) ==> located_eocd(t)
                == located_eocd(file)
            &&& eocd_position(file) is Some ==> eocd_position(file)->0 >= file.len() - 65557
            &&& (eocd_position(file) is Some && eocd_position(file)->0 < s) ==> le16(
                file,
                eocd_position(file)->0 + 20,
            ) > 65514
        }),
{
    lemma_last_eocd_is_genuine(file, file.len() - 22);
    let s = tail_start(file.len() as int);
    let t = file.subrange(s, file.len() as int);
    lemma_scan_window(file, s, t.len() - 22);
    lemma_last_eocd_is_genuine(file, s - 1);
    if let Some(q) = eocd_position(t) {
        lemma_last_eocd_is_genuine(t, t.len() - 22);
        assert(eocd_fields(t, q) == eocd_fields(file, q + s));
    }
}

} // verus!
