//! Decoding of the central directory: the listing of all entries, and the
//! lookup of one entry by name.

use crate::archive::{
    compressed_sum, lemma_size_sum_prefix, size_sum, ArchiveEntry, ArchiveFormat, ArchiveInfo,
};
use crate::text::{decimal, decimal_string};
use crate::zip_layout::{le16, le32, read_u16_le, read_u32_le, has_signature, signature_at};
use vstd::prelude::*;
use vstd::slice::slice_subrange;
use vstd::string::*;

verus! {

/// Entries listed when the caller sets no cap of its own.
pub const DEFAULT_MAX_ENTRIES: u64 = 10000;

/// Length of the whole central-directory record at `off`: the fixed header,
/// the file name, the extra field and the comment.
pub open spec fn record_len(d: Seq<u8>, off: int) -> int {
    46 + le16(d, off + 28) + le16(d, off + 30) + le16(d, off + 32)
}

/// The raw file name of the record at `off`.
pub open spec fn name_bytes(d: Seq<u8>, off: int) -> Seq<u8> {
    d.subrange(off + 46, off + 46 + le16(d, off + 28))
}

/// The record at `off` names a directory: its name ends with `/` or its
/// external attributes carry the MS-DOS directory bit `0x10`.
pub open spec fn is_directory_record(d: Seq<u8>, off: int) -> bool {
    ||| (le16(d, off + 28) > 0 && d[off + 46 + le16(d, off + 28) - 1] == 0x2fu8)
    ||| (le32(d, off + 38) / 16) % 2 == 1
}

/// Seconds since 1970 for an MS-DOS date and time, counting every year as
/// 365 days and every month as 30 days.
pub open spec fn dos_timestamp(date: int, time: int) -> int {
    let year = date / 512 + 1980;
    let month = (date / 32) % 16;
    let day = date % 32;
    let hour = time / 2048;
    let minute = (time / 32) % 64;
    let second = (time % 32) * 2;
    let days = (year - 1980) * 365 + (month - 1) * 30 + day;
    315532800 + days * 86400 + hour * 3600 + minute * 60 + second
}

/// Converts an MS-DOS date and time to seconds since 1970, approximately.
pub fn dos_time_to_timestamp(date: u16, time: u16) -> (r: i64)
    ensures
        r as int == dos_timestamp(date as int, time as int),
        r > 0,
{
    let year = (date / 512) as i64 + 1980;
    let month = ((date / 32) % 16) as i64;
    let day = (date % 32) as i64;
    let hour = (time / 2048) as i64;
    let minute = ((time / 32) % 64) as i64;
    let second = ((time % 32) * 2) as i64;
    let days = (year - 1980) * 365 + (month - 1) * 30 + day;
    315532800i64 + days * 86400 + hour * 3600 + minute * 60 + second
}

/// Characters that lossy UTF-8 decoding gives for `b`, each invalid sequence
/// replaced by U+FFFD.
pub uninterp spec fn utf8_lossy(b: Seq<u8>) -> Seq<char>;

/// Relies on `String::from_utf8_lossy`: the result depends on the bytes
/// alone.
#[verifier::external_body]
fn decode_name(b: &[u8]) -> (r: String)
    ensures
        r@ == utf8_lossy(b@),
{
    String::from_utf8_lossy(b).into_owned()
}

/// The listing entry that the record at `off` describes.
pub open spec fn entry_describes(e: ArchiveEntry, d: Seq<u8>, off: int) -> bool {
    let dir = is_directory_record(d, off);
    &&& e.path@ == utf8_lossy(name_bytes(d, off))
    &&& e.name@ == e.path@
    &&& e.size == (if dir { 0 } else { le32(d, off + 24) as u64 })
    &&& e.compressed_size == Some(le32(d, off + 20) as u64)
    &&& e.modified is Some
    &&& e.modified->0@ == decimal(dos_timestamp(le16(d, off + 14), le16(d, off + 12)) as nat)
    &&& e.is_directory == dir
    &&& !e.is_encrypted
    &&& e.crc32 == Some(le32(d, off + 16) as u32)
}

/// Offsets of the records listed when at most `budget` more are taken from
/// `off` on. A record whose signature is wrong makes the listing fail (`None`);
/// a record cut short by the end of `d` ends it.
pub open spec fn listed_records(d: Seq<u8>, off: int, budget: nat) -> Option<Seq<int>>
    decreases budget,
{
    if budget == 0 || off < 0 || off + 46 > d.len() {
        Some(Seq::empty())
    } else if !signature_at(d, off, 0x01, 0x02) {
        None
    } else if off + record_len(d, off) > d.len() {
        Some(Seq::empty())
    } else {
        match listed_records(d, off + record_len(d, off), (budget - 1) as nat) {
            Some(rest) => Some(seq![off] + rest),
            None => None,
        }
    }
}

/// `offs` followed by the listing `rest`.
pub open spec fn prefixed(offs: Seq<int>, rest: Option<Seq<int>>) -> Option<Seq<int>> {
    match rest {
        Some(s) => Some(offs + s),
        None => None,
    }
}

/// How many records a listing takes: the caller's cap (or the default one),
/// and never more than the archive declares.
pub open spec fn parse_limit(total_entries: u64, max_entries: Option<usize>) -> nat {
    let cap: int = match max_entries {
        Some(m) => m as int,
        None => DEFAULT_MAX_ENTRIES as int,
    };
    if cap < total_entries as int {
        cap as nat
    } else {
        total_entries as nat
    }
}

/// A listing never takes more records than its budget.
pub proof fn lemma_listing_within_budget(d: Seq<u8>, off: int, budget: nat)
    ensures
        listed_records(d, off, budget) matches Some(s) ==> s.len() <= budget,
    decreases budget,
{
    if budget > 0 && off >= 0 && off + 46 <= d.len() && signature_at(d, off, 0x01, 0x02) && off
        + record_len(d, off) <= d.len() {
        lemma_listing_within_budget(d, off + record_len(d, off), (budget - 1) as nat);
    }
}

proof fn lemma_prefixed_step(offs: Seq<int>, o: int, rest: Option<Seq<int>>)
    ensures
        prefixed(offs, prefixed(seq![o], rest)) == prefixed(offs.push(o), rest),
{
    if let Some(s) = rest {
        assert(offs + (seq![o] + s) =~= offs.push(o) + s);
    }
}

/// `info` is the listing of central directory `d` of an archive declaring
/// `total_entries` entries, capped by `max_entries`; its totals are the
/// (saturating) sums of the listed entries' sizes and compressed sizes.
pub open spec fn lists_directory(
    info: ArchiveInfo,
    d: Seq<u8>,
    total_entries: u64,
    max_entries: Option<usize>,
) -> bool {
    let offs = listed_records(d, 0, parse_limit(total_entries, max_entries))->0;
    &&& info.entries@.len() == offs.len()
    &&& forall|k: int|
        0 <= k < offs.len() ==> entry_describes(#[trigger] info.entries@[k], d, offs[k])
    &&& info.entries@.len() <= parse_limit(total_entries, max_entries)
    &&& info.total_entries == total_entries
    &&& info.has_more == (info.entries@.len() < total_entries)
    &&& info.total_uncompressed_size == size_sum(info.entries@, info.entries@.len() as int)
    &&& info.total_compressed_size == compressed_sum(info.entries@, info.entries@.len() as int)
    &&& info.format == ArchiveFormat::Zip
}

/// Builds the listing entry of the record at `off`.
fn read_entry(d: &[u8], off: usize) -> (e: ArchiveEntry)
    requires
        off + record_len(d@, off as int) <= d.len(),
    ensures
        entry_describes(e, d@, off as int),
{
    let name_len = read_u16_le(d, off + 28) as usize;
    let filename = decode_name(slice_subrange(d, off + 46, off + 46 + name_len));
    let uncompressed_size = read_u32_le(d, off + 24) as u64;
    let compressed_size = read_u32_le(d, off + 20) as u64;
    let crc32 = read_u32_le(d, off + 16);
    let external_attr = read_u32_le(d, off + 38);
    let is_dir = (name_len > 0 && d[off + 46 + name_len - 1] == 0x2f) || (external_attr / 16) % 2
        == 1;
    let mod_time = read_u16_le(d, off + 12);
    let mod_date = read_u16_le(d, off + 14);
    let timestamp = dos_time_to_timestamp(mod_date, mod_time);
    let modified = decimal_string(timestamp as u64);
    ArchiveEntry {
        path: filename.clone(),
        name: filename,
        size: if is_dir {
            0
        } else {
            uncompressed_size
        },
        compressed_size: Some(compressed_size),
        modified: Some(modified),
        is_directory: is_dir,
        is_encrypted: false,
        crc32: Some(crc32),
    }
}

/// Lists the entries of the central directory `cd_data` of an archive that
/// declares `total_entries` entries, taking at most `max_entries` of them
/// (10000 when unset).
pub fn parse_central_directory(cd_data: &[u8], total_entries: u64, max_entries: Option<usize>) -> (r:
    Result<ArchiveInfo, String>)
    ensures
        r is Ok <==> listed_records(cd_data@, 0, parse_limit(total_entries, max_entries)) is Some,
        r matches Ok(info) ==> lists_directory(info, cd_data@, total_entries, max_entries),
{
    let cap: u64 = match max_entries {
        Some(m) => m as u64,
        None => DEFAULT_MAX_ENTRIES,
    };
    let limit: u64 = if cap < total_entries {
        cap
    } else {
        total_entries
    };
    let ghost d = cd_data@;
    let ghost whole = listed_records(d, 0, limit as nat);
    let ghost mut offs: Seq<int> = Seq::empty();
    let mut entries: Vec<ArchiveEntry> = Vec::new();
    let mut offset: usize = 0;
    let mut parsed: u64 = 0;
    let mut total_size: u64 = 0;
    let mut total_compressed: u64 = 0;
    proof {
        assert(limit as nat == parse_limit(total_entries, max_entries));
        assert(whole == prefixed(offs, listed_records(d, 0, limit as nat))) by {
            if let Some(s) = whole {
                assert(offs + s =~= s);
            }
        }
    }
    while parsed < limit
        invariant
            d == cd_data@,
            offset <= cd_data@.len(),
            parsed <= limit,
            entries@.len() == parsed,
            offs.len() == parsed,
            whole == listed_records(d, 0, limit as nat),
            limit as nat == parse_limit(total_entries, max_entries),
            whole == prefixed(offs, listed_records(d, offset as int, (limit - parsed) as nat)),
            forall|k: int| 0 <= k < parsed ==> entry_describes(#[trigger] entries@[k], d, offs[k]),
            total_size == size_sum(entries@, parsed as int),
            total_compressed == compressed_sum(entries@, parsed as int),
        ensures
            listed_records(d, offset as int, (limit - parsed) as nat) == Some(Seq::<int>::empty()),
        decreases limit - parsed,
    {
        if cd_data.len() - offset < 46 {
            break;
        }
        if !has_signature(cd_data, offset, 0x01, 0x02) {
            assert(listed_records(d, offset as int, (limit - parsed) as nat) is None);
            return Err("invalid central directory signature".to_string());
        }
        let rec_len = 46 + read_u16_le(cd_data, offset + 28) as usize + read_u16_le(
            cd_data,
            offset + 30,
        ) as usize + read_u16_le(cd_data, offset + 32) as usize;
        if rec_len > cd_data.len() - offset {
            break;
        }
        let entry = read_entry(cd_data, offset);
        total_size = total_size.saturating_add(entry.size);
        total_compressed = total_compressed.saturating_add(
            match entry.compressed_size {
                Some(c) => c,
                None => 0,
            },
        );
        let ghost before = entries@;
        entries.push(entry);
        proof {
            lemma_size_sum_prefix(before, entries@, parsed as int);
            lemma_prefixed_step(
                offs,
                offset as int,
                listed_records(d, offset + rec_len, (limit - parsed - 1) as nat),
            );
            offs = offs.push(offset as int);
        }
        offset = offset + rec_len;
        parsed = parsed + 1;
    }
    proof {
        assert(offs + Seq::<int>::empty() =~= offs);
        lemma_listing_within_budget(d, 0, limit as nat);
    }
    let has_more = parsed < total_entries;
    Ok(
        ArchiveInfo {
            entries,
            total_entries,
            total_uncompressed_size: total_size,
            total_compressed_size: total_compressed,
            format: ArchiveFormat::Zip,
            has_more,
        },
    )
}


/// What extraction needs to know of one central-directory record.
#[derive(Debug)]
pub struct ZipFileEntry {
    pub filename: String,
    pub compressed_size: u64,
    pub uncompressed_size: u64,
    pub local_header_offset: u64,
    pub compression_method: u16,
}

/// The entry that the record at `off` describes.
pub open spec fn zip_entry_describes(e: ZipFileEntry, d: Seq<u8>, off: int) -> bool {
    &&& e.filename@ == utf8_lossy(name_bytes(d, off))
    &&& e.compression_method as int == le16(d, off + 10)
    &&& e.compressed_size as int == le32(d, off + 20)
    &&& e.uncompressed_size as int == le32(d, off + 24)
    &&& e.local_header_offset as int == le32(d, off + 42)
}

/// Offset of the first record from `off` on whose name is `target`, walking
/// the records while each has its signature and fits in `d`.
pub open spec fn record_named(d: Seq<u8>, off: int, target: Seq<u8>) -> Option<int>
    decreases d.len() - off,
{
    if off < 0 || off + 46 > d.len() || !signature_at(d, off, 0x01, 0x02) || off + record_len(d, off)
        > d.len() {
        None
    } else if name_bytes(d, off) == target {
        Some(off)
    } else {
        record_named(d, off + record_len(d, off), target)
    }
}

proof fn lemma_record_named_fits(d: Seq<u8>, off: int, target: Seq<u8>)
    ensures
        record_named(d, off, target) matches Some(p) ==> p + record_len(d, p) <= d.len() && p >= 0
            && name_bytes(d, p) == target,
    decreases d.len() - off,
{
    if !(off < 0 || off + 46 > d.len() || !signature_at(d, off, 0x01, 0x02) || off + record_len(
        d,
        off,
    ) > d.len()) && name_bytes(d, off) != target {
        lemma_record_named_fits(d, off + record_len(d, off), target);
    }
}

/// Whether `d[off..off + t.len()]` holds exactly the bytes of `t`.
fn bytes_at_equal(d: &[u8], off: usize, t: &[u8]) -> (r: bool)
    requires
        off <= d.len(),
    ensures
        r == (off + t@.len() <= d@.len() && d@.subrange(off as int, off + t@.len()) == t@),
{
    if t.len() > d.len() - off {
        return false;
    }
    let mut i: usize = 0;
    while i < t.len()
        invariant
            off + t.len() <= d.len(),
            i <= t@.len(),
            forall|k: int| 0 <= k < i ==> d@[off + k] == t@[k],
        decreases t@.len() - i,
    {
        if d[off + i] != t[i] {
            assert(d@.subrange(off as int, off + t@.len())[i as int] != t@[i as int]);
            return false;
        }
        i = i + 1;
    }
    assert(d@.subrange(off as int, off + t@.len()) =~= t@);
    true
}

/// Finds the record named exactly `target_filename` (byte for byte) in the
/// central directory `cd_data`.
pub fn find_file_in_central_directory(cd_data: &[u8], target_filename: &str) -> (r: Result<
    ZipFileEntry,
    String,
>)
    ensures
        r is Ok <==> record_named(cd_data@, 0, target_filename.spec_bytes()) is Some,
        r matches Ok(e) ==> zip_entry_describes(
            e,
            cd_data@,
            record_named(cd_data@, 0, target_filename.spec_bytes())->0,
        ),
{
    let target = target_filename.as_bytes();
    let ghost d = cd_data@;
    let mut offset: usize = 0;
    while offset <= cd_data.len() && cd_data.len() - offset >= 46
        invariant
            d == cd_data@,
            target@ == target_filename.spec_bytes(),
            record_named(d, 0, target@) == record_named(d, offset as int, target@),
        ensures
            record_named(d, offset as int, target@) is None,
        decreases cd_data@.len() - offset,
    {
        if !has_signature(cd_data, offset, 0x01, 0x02) {
            break;
        }
        let rec_len = 46 + read_u16_le(cd_data, offset + 28) as usize + read_u16_le(
            cd_data,
            offset + 30,
        ) as usize + read_u16_le(cd_data, offset + 32) as usize;
        if rec_len > cd_data.len() - offset {
            break;
        }
        let name_len = read_u16_le(cd_data, offset + 28) as usize;
        if name_len == target.len() && bytes_at_equal(cd_data, offset + 46, target) {
            proof {
                lemma_record_named_fits(d, 0, target@);
            }
            let filename = decode_name(slice_subrange(cd_data, offset + 46, offset + 46 + name_len));
            return Ok(
                ZipFileEntry {
                    filename,
                    compressed_size: read_u32_le(cd_data, offset + 20) as u64,
                    uncompressed_size: read_u32_le(cd_data, offset + 24) as u64,
                    local_header_offset: read_u32_le(cd_data, offset + 42) as u64,
                    compression_method: read_u16_le(cd_data, offset + 10),
                },
            );
        }
        offset = offset + rec_len;
    }
    Err(String::from_str("entry not found in central directory: ").concat(target_filename))
}

} // verus!
