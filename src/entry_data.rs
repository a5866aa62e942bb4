//! From a central-directory record to the entry's content: the local file
//! header, the payload's place and size, and its decompression.

use crate::archive::FilePreview;
use crate::central_directory::ZipFileEntry;
use crate::error::Error;
use crate::text::{decimal, decimal_string};
use crate::zip_layout::{le16, read_u16_le, LOCAL_HEADER_SIZE};
use vstd::prelude::*;
use vstd::slice::slice_to_vec;
use vstd::string::*;

verus! {

/// Largest entry (by declared uncompressed size) that is extracted.
pub const MAX_ENTRY_SIZE: u64 = 104857600;

/// Output of raw deflate decompression (no zlib wrapper) of `data`, or `None`
/// where the decoder reports the stream corrupt or incomplete.
pub uninterp spec fn raw_inflate(data: Seq<u8>) -> Option<Seq<u8>>;

/// Relies on flate2's `read::DeflateDecoder` read to the end: it decodes a raw
/// deflate stream and fails on a corrupt or truncated one; the outcome
/// depends on the input bytes alone.
#[verifier::external_body]
fn inflate(data: &[u8]) -> (r: Option<Vec<u8>>)
    ensures
        r is Some <==> raw_inflate(data@) is Some,
        r matches Some(v) ==> raw_inflate(data@) == Some(v@),
{
    let mut decoder = flate2::read::DeflateDecoder::new(data);
    let mut out = Vec::new();
    match std::io::Read::read_to_end(&mut decoder, &mut out) {
        Ok(_) => Some(out),
        Err(_) => None,
    }
}

/// An entry too large to preview.
pub open spec fn entry_too_large(entry: ZipFileEntry) -> bool {
    entry.uncompressed_size > MAX_ENTRY_SIZE
}

/// Rejects entries whose declared uncompressed size exceeds 100 MiB.
pub fn check_entry_size(entry: &ZipFileEntry) -> (r: Result<(), Error>)
    ensures
        r is Ok <==> !entry_too_large(*entry),
        r is Err ==> r matches Err(Error::BadRequest(_)),
{
    if entry.uncompressed_size > MAX_ENTRY_SIZE {
        Err(Error::BadRequest("entry exceeds the 100 MiB preview limit".to_string()))
    } else {
        Ok(())
    }
}

/// Where the entry's data starts, from the local header's own name and
/// extra-field lengths.
pub open spec fn data_offset(entry: ZipFileEntry, header: Seq<u8>) -> int {
    entry.local_header_offset + 30 + le16(header, 26) + le16(header, 28)
}

/// Computes the offset of the entry's data from its 30-byte local file
/// header; a header read that came back short (or long), or a header offset
/// beyond 32 bits, is an internal failure.
pub fn local_data_offset(entry: &ZipFileEntry, local_header: &[u8]) -> (r: Result<u64, Error>)
    ensures
        r is Ok <==> local_header@.len() == 30 && entry.local_header_offset <= u32::MAX,
        r matches Ok(off) ==> off == data_offset(*entry, local_header@),
        r is Err ==> r matches Err(Error::Internal(_)),
{
    if local_header.len() as u64 != LOCAL_HEADER_SIZE {
        return Err(Error::Internal("local file header read was incomplete".to_string()));
    }
    if entry.local_header_offset > u32::MAX as u64 {
        return Err(Error::Internal("local file header offset out of range".to_string()));
    }
    let filename_len = read_u16_le(local_header, 26) as u64;
    let extra_len = read_u16_le(local_header, 28) as u64;
    Ok(entry.local_header_offset + LOCAL_HEADER_SIZE + filename_len + extra_len)
}

/// Bytes of payload to read: the compressed size, capped by `max_size`.
pub open spec fn read_size_for(entry: ZipFileEntry, max_size: Option<u64>) -> u64 {
    match max_size {
        Some(m) => if m < entry.compressed_size {
            m
        } else {
            entry.compressed_size
        },
        None => entry.compressed_size,
    }
}

/// Computes how many payload bytes to read.
pub fn payload_read_size(entry: &ZipFileEntry, max_size: Option<u64>) -> (r: u64)
    ensures
        r == read_size_for(*entry, max_size),
{
    match max_size {
        Some(m) => if m < entry.compressed_size {
            m
        } else {
            entry.compressed_size
        },
        None => entry.compressed_size,
    }
}

/// Decoded content of a payload stored with `method`: stored data as is,
/// deflated data inflated; `None` for a corrupt deflate stream or another
/// method.
pub open spec fn decoded_content(method: u16, payload: Seq<u8>) -> Option<Seq<u8>> {
    if method == 0 {
        Some(payload)
    } else if method == 8 {
        raw_inflate(payload)
    } else {
        None
    }
}

/// The preview of `entry` built from its decoded content.
pub open spec fn preview_of(p: FilePreview, entry: ZipFileEntry, content: Seq<u8>) -> bool {
    &&& p.content@ == content
    &&& p.preview_size == content.len()
    &&& p.total_size == entry.uncompressed_size
    &&& p.is_truncated == (content.len() < entry.uncompressed_size)
}

/// Decodes the payload read for `entry` and builds its preview. A payload of
/// another length than `read_size` is an internal failure, as is a corrupt
/// deflate stream; a compression method other than stored (0) or deflate (8)
/// is refused with a message naming its code.
pub fn decode_payload(entry: &ZipFileEntry, payload: &[u8], read_size: u64) -> (r: Result<
    FilePreview,
    Error,
>)
    ensures
        payload@.len() != read_size ==> r matches Err(Error::Internal(_)),
        payload@.len() == read_size && entry.compression_method != 0
            && entry.compression_method != 8 ==> (r matches Err(Error::BadRequest(m)) && m@
            == "unsupported compression method: "@ + decimal(entry.compression_method as nat)),
        payload@.len() == read_size && entry.compression_method == 8 && raw_inflate(payload@) is None
            ==> r matches Err(Error::Internal(_)),
        r is Ok <==> payload@.len() == read_size && decoded_content(
            entry.compression_method,
            payload@,
        ) is Some,
        r matches Ok(p) ==> preview_of(
            p,
            *entry,
            decoded_content(entry.compression_method, payload@)->0,
        ),
{
    if payload.len() as u64 != read_size {
        return Err(Error::Internal("entry data read was incomplete".to_string()));
    }
    let content = if entry.compression_method == 0 {
        slice_to_vec(payload)
    } else if entry.compression_method == 8 {
        match inflate(payload) {
            Some(v) => v,
            None => {
                return Err(Error::Internal("corrupt deflate stream".to_string()));
            },
        }
    } else {
        let code = decimal_string(entry.compression_method as u64);
        return Err(
            Error::BadRequest(
                String::from_str("unsupported compression method: ").concat(code.as_str()),
            ),
        );
    };
    let preview_size = content.len() as u64;
    Ok(
        FilePreview {
            is_truncated: preview_size < entry.uncompressed_size,
            total_size: entry.uncompressed_size,
            preview_size,
            content,
        },
    )
}

} // verus!
