use dataset_viewer_backend::archive::{ArchiveError, ArchiveFormat, ArchiveInfo, FilePreview};
use dataset_viewer_backend::tar_facade::ArchiveHandler;
use dataset_viewer_backend::central_directory::{
    dos_time_to_timestamp, find_file_in_central_directory, parse_central_directory,
};
use dataset_viewer_backend::engine::{
    check_archive_size, check_directory_limits, route_archive, EntryExtractor, InventoryReader,
    ReadEvent, ReadRequest, Step,
};
use dataset_viewer_backend::entry_data::{decode_payload, local_data_offset};
use dataset_viewer_backend::error::Error;
use dataset_viewer_backend::storage::StorageError;
use dataset_viewer_backend::zip_layout::{find_eocd, locate_eocd, parse_eocd_record, EndOfCentralDirectory};
use std::io::Write;

struct Member {
    name: Vec<u8>,
    method: u16,
    stored: Vec<u8>,
    uncompressed_size: u32,
    external_attr: u32,
    date: u16,
    time: u16,
}

fn member(name: &str, data: &[u8]) -> Member {
    Member {
        name: name.as_bytes().to_vec(),
        method: 0,
        stored: data.to_vec(),
        uncompressed_size: data.len() as u32,
        external_attr: 0,
        date: 0,
        time: 0,
    }
}

fn deflated(name: &str, data: &[u8]) -> Member {
    let mut enc = flate2::write::DeflateEncoder::new(Vec::new(), flate2::Compression::default());
    enc.write_all(data).unwrap();
    let stored = enc.finish().unwrap();
    Member { method: 8, stored, ..member(name, data) }
}

fn u16le(v: &mut Vec<u8>, x: u16) {
    v.extend_from_slice(&x.to_le_bytes());
}

fn u32le(v: &mut Vec<u8>, x: u32) {
    v.extend_from_slice(&x.to_le_bytes());
}

/// Builds a ZIP archive; `local_extra` extra bytes go only into the local headers.
fn build_zip(members: &[Member], local_extra: usize, comment: &[u8]) -> Vec<u8> {
    let mut out = Vec::new();
    let mut offsets = Vec::new();
    for m in members {
        offsets.push(out.len() as u32);
        out.extend_from_slice(&[0x50, 0x4b, 0x03, 0x04]);
        u16le(&mut out, 20);
        u16le(&mut out, 0);
        u16le(&mut out, m.method);
        u16le(&mut out, m.time);
        u16le(&mut out, m.date);
        u32le(&mut out, 0);
        u32le(&mut out, m.stored.len() as u32);
        u32le(&mut out, m.uncompressed_size);
        u16le(&mut out, m.name.len() as u16);
        u16le(&mut out, local_extra as u16);
        out.extend_from_slice(&m.name);
        out.extend(std::iter::repeat(0xAAu8).take(local_extra));
        out.extend_from_slice(&m.stored);
    }
    let cd_start = out.len() as u32;
    for (m, off) in members.iter().zip(offsets.iter()) {
        out.extend_from_slice(&[0x50, 0x4b, 0x01, 0x02]);
        u16le(&mut out, 20);
        u16le(&mut out, 20);
        u16le(&mut out, 0);
        u16le(&mut out, m.method);
        u16le(&mut out, m.time);
        u16le(&mut out, m.date);
        u32le(&mut out, 0x1234_5678);
        u32le(&mut out, m.stored.len() as u32);
        u32le(&mut out, m.uncompressed_size);
        u16le(&mut out, m.name.len() as u16);
        u16le(&mut out, 0);
        u16le(&mut out, 0);
        u16le(&mut out, 0);
        u16le(&mut out, 0);
        u32le(&mut out, m.external_attr);
        u32le(&mut out, *off);
        out.extend_from_slice(&m.name);
    }
    let cd_size = out.len() as u32 - cd_start;
    out.extend_from_slice(&[0x50, 0x4b, 0x05, 0x06]);
    u16le(&mut out, 0);
    u16le(&mut out, 0);
    u16le(&mut out, members.len() as u16);
    u16le(&mut out, members.len() as u16);
    u32le(&mut out, cd_size);
    u32le(&mut out, cd_start);
    u16le(&mut out, comment.len() as u16);
    out.extend_from_slice(comment);
    out
}

fn serve(file: &[u8], req: ReadRequest) -> ReadEvent {
    match req {
        ReadRequest::FileSize => ReadEvent::Size(file.len() as u64),
        ReadRequest::Range { offset, length } => {
            let start = (offset as usize).min(file.len());
            let end = (offset as usize).saturating_add(length as usize).min(file.len());
            ReadEvent::Bytes(file[start..end].to_vec())
        }
    }
}

fn list(file: &[u8], max: Option<usize>) -> (Result<ArchiveInfo, Error>, Vec<ReadRequest>) {
    let (mut reader, mut req) = InventoryReader::new(max);
    let mut reqs = vec![req];
    loop {
        let (next, step) = reader.advance(serve(file, req));
        reader = next;
        match step {
            Step::Read(q) => {
                req = q;
                reqs.push(q);
            }
            Step::Done(r) => return (r, reqs),
        }
    }
}

fn extract(file: &[u8], target: &str, max: Option<u64>) -> Result<FilePreview, Error> {
    let (mut ex, mut req) = EntryExtractor::new(target.to_string(), max);
    loop {
        let (next, step) = ex.advance(serve(file, req));
        ex = next;
        match step {
            Step::Read(q) => req = q,
            Step::Done(r) => return r,
        }
    }
}

#[test]
fn empty_stored_entry_lists_and_extracts() {
    let zip = build_zip(&[member("a.txt", b"")], 0, b"");
    let (info, _) = list(&zip, None);
    let info = info.unwrap();
    assert_eq!(info.entries.len(), 1);
    assert_eq!(info.entries[0].path, "a.txt");
    assert_eq!(info.entries[0].size, 0);
    assert!(!info.entries[0].is_directory);
    assert!(!info.has_more);
    assert_eq!(info.total_entries, 1);
    assert!(matches!(info.format, ArchiveFormat::Zip));
    let p = extract(&zip, "a.txt", None).unwrap();
    assert!(p.content.is_empty());
    assert_eq!(p.preview_size, 0);
    assert!(!p.is_truncated);
}

#[test]
fn directory_bit_forces_zero_size() {
    let mut d = member("dir/", b"");
    d.uncompressed_size = 777;
    d.external_attr = 0x10;
    let mut e = member("plain", b"xyz");
    e.external_attr = 0x10;
    e.uncompressed_size = 3;
    let zip = build_zip(&[d, e, member("file.txt", b"hello")], 0, b"");
    let info = list(&zip, None).0.unwrap();
    assert!(info.entries[0].is_directory);
    assert_eq!(info.entries[0].size, 0);
    assert!(info.entries[1].is_directory);
    assert_eq!(info.entries[1].size, 0);
    assert!(!info.entries[2].is_directory);
    assert_eq!(info.entries[2].size, 5);
    assert_eq!(info.total_uncompressed_size, 5);
    assert_eq!(info.total_compressed_size, 8);
    assert_eq!(info.entries[2].compressed_size, Some(5));
    assert_eq!(info.entries[2].crc32, Some(0x1234_5678));
}

#[test]
fn capped_stored_read_is_truncated() {
    let data: Vec<u8> = (0..1000u32).map(|i| (i % 251) as u8).collect();
    let zip = build_zip(&[member("big.bin", &data)], 0, b"");
    let p = extract(&zip, "big.bin", Some(10)).unwrap();
    assert_eq!(p.content, data[..10].to_vec());
    assert!(p.is_truncated);
    assert_eq!(p.total_size, 1000);
    assert_eq!(p.preview_size, 10);
}

#[test]
fn deflated_entry_is_inflated() {
    let text = b"the quick brown fox jumps over the lazy dog, again and again and again".repeat(20);
    let zip = build_zip(&[member("a", b"x"), deflated("b.txt", &text)], 0, b"comment");
    let p = extract(&zip, "b.txt", None).unwrap();
    assert_eq!(p.content, text);
    assert!(!p.is_truncated);
    assert_eq!(p.total_size, text.len() as u64);
}

#[test]
fn local_header_lengths_are_read_from_the_local_header() {
    let zip = build_zip(&[member("x.txt", b"payload")], 9, b"");
    let p = extract(&zip, "x.txt", None).unwrap();
    assert_eq!(p.content, b"payload".to_vec());
}

#[test]
fn reextraction_yields_identical_content() {
    let text = b"repeatable content ".repeat(50);
    let zip = build_zip(&[deflated("r.txt", &text)], 3, b"");
    let a = extract(&zip, "r.txt", Some(100000)).unwrap();
    let b = extract(&zip, "r.txt", Some(100000)).unwrap();
    assert_eq!(a.content, b.content);
}

#[test]
fn missing_entry_is_not_found() {
    let zip = build_zip(&[member("a.txt", b"1")], 0, b"");
    assert!(matches!(extract(&zip, "b.txt", None), Err(Error::NotFound(_))));
    assert!(matches!(extract(&zip, "A.TXT", None), Err(Error::NotFound(_))));
}

#[test]
fn unsupported_method_is_bad_request() {
    let mut m = member("m.bin", b"abc");
    m.method = 12;
    let zip = build_zip(&[m], 0, b"");
    match extract(&zip, "m.bin", None) {
        Err(Error::BadRequest(msg)) => assert_eq!(msg, "unsupported compression method: 12"),
        other => panic!("unexpected {:?}", other),
    }
}

#[test]
fn oversized_entry_is_bad_request() {
    let mut m = member("huge", b"abc");
    m.uncompressed_size = 104857601;
    let zip = build_zip(&[m], 0, b"");
    assert!(matches!(extract(&zip, "huge", None), Err(Error::BadRequest(_))));
}

#[test]
fn corrupt_deflate_is_internal() {
    let mut m = member("c", b"\xff\xff\xff\xff");
    m.method = 8;
    let zip = build_zip(&[m], 0, b"");
    assert!(matches!(extract(&zip, "c", None), Err(Error::Internal(_))));
}

#[test]
fn wrong_leading_signature_is_bad_request_at_any_size() {
    let mut zip = build_zip(&[member("a.txt", b"hi")], 0, b"");
    zip[3] = 0x09;
    assert!(matches!(list(&zip, None).0, Err(Error::BadRequest(_))));
    assert!(matches!(extract(&zip, "a.txt", None), Err(Error::BadRequest(_))));
    let tiny = vec![0u8; 10];
    assert!(matches!(list(&tiny, None).0, Err(Error::BadRequest(_))));
    let (mut reader, _) = InventoryReader::new(None);
    reader = reader.advance(ReadEvent::Size(1 << 20)).0;
    let (_, step) = reader.advance(ReadEvent::Bytes(vec![0x50, 0x4b, 0x05, 0x06]));
    assert!(matches!(step, Step::Done(Err(Error::BadRequest(_)))));
}

#[test]
fn short_reads_are_internal() {
    let zip = build_zip(&[member("a.txt", b"hello")], 0, b"");
    // Header read short.
    let (reader, _) = InventoryReader::new(None);
    let (reader, _) = reader.advance(ReadEvent::Size(zip.len() as u64));
    let (_, step) = reader.advance(ReadEvent::Bytes(vec![0x50, 0x4b]));
    assert!(matches!(step, Step::Done(Err(Error::Internal(_)))));
    // Tail read short: the file claims to be longer than it is.
    let (reader, _) = InventoryReader::new(None);
    let (reader, _) = reader.advance(ReadEvent::Size(zip.len() as u64 + 5));
    let (reader, step) = reader.advance(ReadEvent::Bytes(zip[..4].to_vec()));
    let req = match step {
        Step::Read(q) => q,
        _ => panic!("expected a read"),
    };
    let (_, step) = reader.advance(serve(&zip, req));
    assert!(matches!(step, Step::Done(Err(Error::Internal(_)))));
    // Payload read short.
    let mut truncated = zip.clone();
    let cut = 30 + 5 + 2;
    truncated.drain(cut..30 + 5 + 5);
    let e = dataset_viewer_backend::central_directory::ZipFileEntry {
        filename: "a.txt".to_string(),
        compressed_size: 5,
        uncompressed_size: 5,
        local_header_offset: 0,
        compression_method: 0,
    };
    assert!(matches!(decode_payload(&e, b"hel", 5), Err(Error::Internal(_))));
    assert!(matches!(local_data_offset(&e, &zip[..20]), Err(Error::Internal(_))));
    assert_eq!(local_data_offset(&e, &zip[..30]).unwrap(), 35);
    // A failed read is internal too.
    let (reader, _) = InventoryReader::new(None);
    let (_, step) = reader.advance(ReadEvent::Failed(StorageError::NotConnected));
    assert!(matches!(step, Step::Done(Err(Error::Internal(_)))));
}

#[test]
fn excessive_entry_count_is_rejected_before_directory_read() {
    let rec = EndOfCentralDirectory {
        total_entries: 2_000_000,
        central_directory_size: 10,
        central_directory_offset: 0,
        comment_length: 0,
    };
    assert!(matches!(check_directory_limits(&rec, 1000), Err(Error::BadRequest(_))));
    let ok = EndOfCentralDirectory { total_entries: 5, ..rec };
    assert!(check_directory_limits(&ok, 1000).is_ok());
    let too_big = EndOfCentralDirectory { central_directory_size: 2000, ..ok };
    assert!(matches!(check_directory_limits(&too_big, 1000), Err(Error::BadRequest(_))));
    let over_cap = EndOfCentralDirectory { central_directory_size: 524288001, ..ok };
    assert!(matches!(
        check_directory_limits(&over_cap, 1 << 40),
        Err(Error::BadRequest(_))
    ));
}

#[test]
fn archive_size_limits() {
    assert!(matches!(check_archive_size(21), Err(Error::BadRequest(_))));
    assert!(check_archive_size(22).is_ok());
    assert!(check_archive_size(536870912000).is_ok());
    assert!(matches!(check_archive_size(536870912001), Err(Error::BadRequest(_))));
}

#[test]
fn seven_zip_and_rar_are_refused_before_any_read() {
    assert!(matches!(route_archive("data/a.7z"), Err(Error::BadRequest(_))));
    assert!(matches!(route_archive("b.RAR"), Err(Error::BadRequest(_))));
    assert!(matches!(route_archive("noext"), Err(Error::BadRequest(_))));
    assert!(matches!(route_archive("x.gz"), Err(Error::BadRequest(_))));
    assert!(matches!(route_archive("x.ZIP"), Ok(ArchiveFormat::Zip)));
    assert!(matches!(route_archive("x.tar"), Ok(ArchiveFormat::Tar)));
    assert!(matches!(route_archive("x.tgz"), Ok(ArchiveFormat::TarGz)));
}

#[test]
fn entry_cap_and_has_more() {
    let members: Vec<Member> = (0..5).map(|i| member(&format!("f{}", i), b"z")).collect();
    let zip = build_zip(&members, 0, b"");
    let info = list(&zip, Some(2)).0.unwrap();
    assert_eq!(info.entries.len(), 2);
    assert!(info.has_more);
    assert_eq!(info.total_entries, 5);
    let info = list(&zip, Some(10)).0.unwrap();
    assert_eq!(info.entries.len(), 5);
    assert!(!info.has_more);
    let info = list(&zip, Some(0)).0.unwrap();
    assert_eq!(info.entries.len(), 0);
    assert!(info.has_more);
}

#[test]
fn truncated_directory_tail_stops_listing() {
    let zip = build_zip(&[member("one", b"1"), member("two", b"2")], 0, b"");
    let eocd = find_eocd(&zip).unwrap();
    let cd_size = u32::from_le_bytes([zip[eocd + 12], zip[eocd + 13], zip[eocd + 14], zip[eocd + 15]]) as usize;
    let cd_off = u32::from_le_bytes([zip[eocd + 16], zip[eocd + 17], zip[eocd + 18], zip[eocd + 19]]) as usize;
    let cd = &zip[cd_off..cd_off + cd_size - 2];
    let info = parse_central_directory(cd, 2, None).unwrap();
    assert_eq!(info.entries.len(), 1);
    assert!(info.has_more);
    let mut bad = zip[cd_off..cd_off + cd_size].to_vec();
    bad[0] = 0;
    assert!(parse_central_directory(&bad, 2, None).is_err());
}

#[test]
fn eocd_is_found_only_where_its_comment_reaches_the_end() {
    let comment: &[u8] = b"PK\x05\x06 fake record inside the comment....";
    let zip = build_zip(&[member("a", b"1")], 0, comment);
    let pos = find_eocd(&zip).unwrap();
    assert_eq!(&zip[pos..pos + 4], &[0x50, 0x4b, 0x05, 0x06]);
    assert_eq!(pos + 22 + comment.len(), zip.len());
    assert!(find_eocd(&zip[..zip.len() - 1]).is_none());
    assert!(find_eocd(&[0u8; 21]).is_none());
    let (off, size) = parse_eocd_record(&zip, zip.len() as u64).unwrap();
    assert_eq!(off, 32);
    assert_eq!(size, 47);
    assert!(parse_eocd_record(&zip[..zip.len() - 3], 0).is_err());
}

#[test]
fn tail_window_agrees_with_whole_file_scan() {
    let big: Vec<u8> = vec![7u8; 70000];
    let zip = build_zip(&[member("big", &big)], 0, b"trailing comment");
    let whole = locate_eocd(&zip).unwrap();
    let start = zip.len() - 65536;
    let tail = locate_eocd(&zip[start..]).unwrap();
    assert_eq!(whole, tail);
    assert_eq!(find_eocd(&zip).unwrap(), find_eocd(&zip[start..]).unwrap() + start);
    let (info, reqs) = list(&zip, None);
    assert_eq!(info.unwrap().entries.len(), 1);
    assert_eq!(reqs[2], ReadRequest::Range { offset: start as u64, length: 65536 });
}

#[test]
fn find_entry_by_exact_name() {
    let zip = build_zip(&[member("a/b.txt", b"12"), member("c.txt", b"345")], 0, b"");
    let pos = find_eocd(&zip).unwrap();
    let rec = locate_eocd(&zip).unwrap();
    assert!(pos > 0);
    let off = rec.central_directory_offset as usize;
    let cd = &zip[off..off + rec.central_directory_size as usize];
    let e = find_file_in_central_directory(cd, "c.txt").unwrap();
    assert_eq!(e.filename, "c.txt");
    assert_eq!(e.compressed_size, 3);
    assert_eq!(e.uncompressed_size, 3);
    assert_eq!(e.compression_method, 0);
    assert_eq!(e.local_header_offset, 30 + 7 + 2);
    assert!(find_file_in_central_directory(cd, "/c.txt").is_err());
}

#[test]
fn dos_timestamp_uses_thirty_day_months() {
    // 1980-01-01 00:00:00
    assert_eq!(dos_time_to_timestamp((0 << 9) | (1 << 5) | 1, 0), 315532800 + 86400);
    // 2000-03-15 12:30:20
    let date = (20 << 9) | (3 << 5) | 15;
    let time = (12 << 11) | (30 << 5) | 10;
    let days = 20 * 365 + 2 * 30 + 15;
    assert_eq!(dos_time_to_timestamp(date, time), 315532800 + days * 86400 + 12 * 3600 + 30 * 60 + 20);
    assert_eq!(dos_time_to_timestamp(0, 0), 315532800 - 30 * 86400);
}

#[test]
fn listing_reports_modified_as_decimal_seconds() {
    let mut m = member("t", b"1");
    m.date = (20 << 9) | (3 << 5) | 15;
    m.time = (12 << 11) | (30 << 5) | 10;
    let zip = build_zip(&[m], 0, b"");
    let info = list(&zip, None).0.unwrap();
    let expected = 315532800i64 + (20 * 365 + 2 * 30 + 15) * 86400 + 12 * 3600 + 30 * 60 + 20;
    assert_eq!(info.entries[0].modified.as_deref(), Some(expected.to_string().as_str()));
}

#[test]
fn invalid_utf8_names_are_decoded_lossily() {
    let mut m = member("x", b"1");
    m.name = vec![b'a', 0xff, b'/'];
    let zip = build_zip(&[m], 0, b"");
    let info = list(&zip, None).0.unwrap();
    assert_eq!(info.entries[0].path, "a\u{fffd}/");
    assert!(info.entries[0].is_directory);
}

#[test]
fn zip_in_memory_through_the_buffered_reader() {
    let text = b"buffered zip entry ".repeat(10);
    let zip = build_zip(&[member("one.txt", b"1"), deflated("two.txt", &text)], 4, b"");
    let info = ArchiveHandler::analyze(&zip, ArchiveFormat::Zip, None).unwrap();
    assert_eq!(info.entries.len(), 2);
    assert_eq!(info.entries[1].path, "two.txt");
    let p = ArchiveHandler::extract_file(&zip, ArchiveFormat::Zip, "two.txt", None).unwrap();
    assert_eq!(p.content, text);
    assert!(matches!(
        ArchiveHandler::extract_file(&zip, ArchiveFormat::Zip, "three.txt", None),
        Err(ArchiveError::FileNotFound(_))
    ));
    assert!(matches!(
        ArchiveHandler::analyze(b"definitely not a zip archive", ArchiveFormat::Zip, None),
        Err(ArchiveError::InvalidArchive(_))
    ));
}

#[test]
fn in_memory_zip_failures_have_their_kinds() {
    let zip = build_zip(&[member("a.txt", b"abc")], 0, b"");
    assert!(matches!(dataset_viewer_backend::engine::extract_zip_in_memory(&zip, "zz", None), Err(Error::NotFound(_))));
    let mut bad = zip.clone();
    bad[0] = b'Q';
    assert!(matches!(dataset_viewer_backend::engine::list_zip_in_memory(&bad, None), Err(Error::BadRequest(_))));
    let p = dataset_viewer_backend::engine::extract_zip_in_memory(&zip, "a.txt", Some(2)).unwrap();
    assert_eq!(p.content, b"ab".to_vec());
    assert_eq!(p.total_size, 3);
    assert_eq!(p.preview_size, 2);
    assert!(p.is_truncated);
    let info = dataset_viewer_backend::engine::list_zip_in_memory(&zip, Some(5)).unwrap();
    assert_eq!(info.total_uncompressed_size, 3);
    assert_eq!(info.total_compressed_size, 3);
}
