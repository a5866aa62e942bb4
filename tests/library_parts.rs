use dataset_viewer_backend::api::ApiResponse;
use dataset_viewer_backend::archive::{ArchiveError, ArchiveFormat};
use dataset_viewer_backend::backends::{
    select_backend, BackendKind, LocalClient, RootStatus, SMBClient, SSHClient,
};
use dataset_viewer_backend::config::Config;
use dataset_viewer_backend::error::Error;
use dataset_viewer_backend::listing::{arrange_listing, parse_usize};
use dataset_viewer_backend::paths::{
    archive_format_of, get_file_extension, guess_mime_type, is_archive_file, join_paths,
    normalize_path,
};
use dataset_viewer_backend::manager::StorageManager;
use dataset_viewer_backend::storage::{ConnectionConfig, StorageError};
use dataset_viewer_backend::tar_facade::ArchiveHandler;
use dataset_viewer_backend::text::decimal_string;
use std::io::Write;

fn config(protocol: &str) -> ConnectionConfig {
    ConnectionConfig {
        protocol: protocol.to_string(),
        url: None,
        access_key: None,
        secret_key: None,
        region: None,
        bucket: None,
        endpoint: None,
        username: None,
        password: None,
        port: None,
        private_key_path: None,
        passphrase: None,
        root_path: None,
        share: None,
        domain: None,
        extra_options: None,
    }
}

#[test]
fn normalize_path_cases() {
    assert_eq!(normalize_path("  //a///b//  "), "a/b");
    assert_eq!(normalize_path("/"), "/");
    assert_eq!(normalize_path("///"), "/");
    assert_eq!(normalize_path(""), "");
    assert_eq!(normalize_path("a/b/"), "a/b");
    assert_eq!(normalize_path("/é/"), "é");
}

#[test]
fn join_paths_cases() {
    assert_eq!(join_paths("/base/", "/x/y"), "base/x/y");
    assert_eq!(join_paths("", "x"), "x");
    assert_eq!(join_paths("b", " "), "b");
    assert_eq!(join_paths("a//", "//c"), "a/c");
}

#[test]
fn extensions_and_mime_types() {
    assert_eq!(get_file_extension("dir/File.TXT"), Some("txt".to_string()));
    assert_eq!(get_file_extension("archive.tar.gz"), Some("gz".to_string()));
    assert_eq!(get_file_extension(".bashrc"), None);
    assert_eq!(get_file_extension("noext"), None);
    assert!(is_archive_file("x.ZIP"));
    assert!(is_archive_file("x.tgz"));
    assert!(!is_archive_file("x.txt"));
    assert_eq!(guess_mime_type("a.json"), "application/json");
    assert_eq!(guess_mime_type("a.JPEG"), "image/jpeg");
    assert_eq!(guess_mime_type("a.xlsx"), "application/vnd.openxmlformats-officedocument.spreadsheetml.sheet");
    assert_eq!(guess_mime_type("a.unknown"), "application/octet-stream");
    assert_eq!(guess_mime_type("noext"), "application/octet-stream");
}

#[test]
fn archive_formats_from_extensions() {
    assert_eq!(ArchiveFormat::from_extension("ZiP"), ArchiveFormat::Zip);
    assert_eq!(ArchiveFormat::from_extension("tar.gz"), ArchiveFormat::TarGz);
    assert_eq!(ArchiveFormat::from_extension("tbz2"), ArchiveFormat::TarBz2);
    assert_eq!(ArchiveFormat::from_extension("txz"), ArchiveFormat::TarXz);
    assert_eq!(ArchiveFormat::from_extension("7z"), ArchiveFormat::SevenZ);
    assert_eq!(ArchiveFormat::from_extension("rar"), ArchiveFormat::Rar);
    assert_eq!(ArchiveFormat::from_extension("gz"), ArchiveFormat::Gzip);
    assert_eq!(ArchiveFormat::from_extension("doc"), ArchiveFormat::Unknown);
    assert_eq!(archive_format_of("a/b.tar.gz"), ArchiveFormat::Gzip);
    assert_eq!(archive_format_of("x.7z"), ArchiveFormat::SevenZ);
}

#[test]
fn decimal_strings() {
    assert_eq!(decimal_string(0), "0");
    assert_eq!(decimal_string(1234567890), "1234567890");
    assert_eq!(decimal_string(u64::MAX), u64::MAX.to_string());
}

#[test]
fn registry_create_lookup_remove() {
    let mut reg: StorageManager<u32> = StorageManager::new();
    assert!(matches!(reg.get_active_client(), Err(StorageError::NotConnected)));
    let a = reg.create_client(7).unwrap();
    let b = reg.create_client(9).unwrap();
    assert_ne!(a, b);
    assert_eq!(a.len(), 36);
    assert_eq!(reg.get_active_client().unwrap(), b);
    assert!(reg.session_exists(&a));
    assert_eq!(reg.get_session_client(&b), Some(&9));
    assert_eq!(reg.list_sessions(), vec![a.clone(), b.clone()]);
    assert_eq!(reg.disconnect(&a), Some(7));
    assert!(!reg.session_exists(&a));
    assert_eq!(reg.disconnect(&a), None);
    assert_eq!(reg.get_active_client().unwrap(), b);
    assert_eq!(reg.list_sessions(), vec![b.clone()]);
    assert!(reg.insert("fixed".to_string(), 1).is_ok());
    assert_eq!(reg.insert("fixed".to_string(), 2), Err(2));
    assert_eq!(reg.get_session_client("fixed"), Some(&1));
    assert_eq!(reg.get_session_client("missing"), None);
    assert_eq!(reg.disconnect(&b), Some(9));
    assert!(reg.get_active_client().is_err());
    let all = reg.disconnect_all();
    assert_eq!(all, vec![("fixed".to_string(), 1)]);
    assert!(reg.list_sessions().is_empty());
}

#[test]
fn backend_selection() {
    assert_eq!(select_backend("file").unwrap(), BackendKind::Local);
    assert_eq!(select_backend("s3").unwrap(), BackendKind::Oss);
    assert_eq!(select_backend("webdavs").unwrap(), BackendKind::WebDav);
    assert_eq!(select_backend("sftp").unwrap(), BackendKind::Ssh);
    assert_eq!(select_backend("cifs").unwrap(), BackendKind::Smb);
    assert_eq!(select_backend("huggingface").unwrap(), BackendKind::HuggingFace);
    assert!(matches!(select_backend("ftp"), Err(StorageError::ProtocolNotSupported(_))));
}

#[test]
fn placeholder_clients() {
    let mut smb = SMBClient::new(config("smb")).unwrap();
    assert!(matches!(smb.list_directory("/x", None), Err(StorageError::NotConnected)));
    assert!(matches!(smb.connect(&config("ssh")), Err(StorageError::ProtocolNotSupported(_))));
    assert!(!smb.is_connected());
    smb.connect(&config("cifs")).unwrap();
    assert!(smb.is_connected());
    let listing = smb.list_directory("/x", None).unwrap();
    assert!(listing.files.is_empty());
    assert_eq!(listing.path, "/x");
    assert!(matches!(smb.read_full_file("a"), Err(StorageError::RequestFailed(_))));
    smb.disconnect().unwrap();
    assert!(matches!(smb.read_file_range("a", 0, 4), Err(StorageError::NotConnected)));
    smb.connect(&config("smb")).unwrap();
    assert_eq!(smb.build_protocol_url("h/s"), "smb://h/s");
    assert_eq!(smb.protocol(), "smb");
    smb.disconnect().unwrap();
    assert!(!smb.is_connected());
    let mut ssh = SSHClient::new(config("ssh")).unwrap();
    ssh.connect(&config("sftp")).unwrap();
    assert_eq!(ssh.build_protocol_url("host/p"), "ssh://host/p");
    assert!(matches!(ssh.get_file_size("a"), Err(StorageError::RequestFailed(_))));
}

#[test]
fn local_client_paths_and_connect() {
    let mut c = LocalClient::new(config("local")).unwrap();
    assert_eq!(c.resolve_path("//a/b"), "a/b");
    let mut cfg = config("file");
    cfg.root_path = Some("/data".to_string());
    assert!(matches!(c.connect(&cfg, RootStatus::Missing), Err(StorageError::NotFound(_))));
    assert!(!c.is_connected());
    assert!(matches!(c.connect(&cfg, RootStatus::NotDirectory), Err(StorageError::InvalidConfig(_))));
    c.connect(&cfg, RootStatus::Directory).unwrap();
    assert!(c.is_connected());
    assert_eq!(c.resolve_path("/x/y.zip"), "/data/x/y.zip");
    assert_eq!(c.resolve_path(""), "/data/");
    assert_eq!(c.build_protocol_url("/f"), "file:///data/f");
    assert!(matches!(c.connect(&config("oss"), RootStatus::Directory), Err(StorageError::ProtocolNotSupported(_))));
    let mut url_cfg = config("local");
    url_cfg.url = Some("/srv/".to_string());
    assert_eq!(LocalClient::root_path_of(&url_cfg), Some("/srv/".to_string()));
    c.connect(&url_cfg, RootStatus::Directory).unwrap();
    assert_eq!(c.resolve_path("k"), "/srv/k");
    c.disconnect().unwrap();
    assert!(!c.is_connected());
    assert_eq!(c.resolve_path("k"), "k");
}

#[test]
fn error_codes_and_names() {
    let e = Error::BadRequest("x".to_string());
    assert_eq!(e.status_code(), 400);
    assert_eq!(e.error_type(), "BAD_REQUEST");
    assert_eq!(e.message(), "x");
    assert_eq!(Error::NotFound("n".to_string()).status_code(), 404);
    assert_eq!(Error::Internal("i".to_string()).error_type(), "INTERNAL_ERROR");
    assert_eq!(Error::Network("n".to_string()).status_code(), 502);
    assert_eq!(Error::Storage(StorageError::NotConnected).message(), "not connected");
    assert!(matches!(ArchiveError::FileNotFound("f".to_string()).into_error(), Error::NotFound(_)));
    assert!(matches!(ArchiveError::TooLarge.into_error(), Error::Internal(_)));
}

#[test]
fn default_config_and_responses() {
    let c = Config::default();
    assert_eq!(c.server.host, "127.0.0.1");
    assert_eq!(c.server.port, 8080);
    assert_eq!(c.security.max_archive_entries, 10000);
    match ApiResponse::<u8>::error("E".to_string(), "m".to_string()) {
        ApiResponse::Error { error, message } => {
            assert_eq!(error, "E");
            assert_eq!(message, "m");
        }
        _ => panic!("expected an error response"),
    }
    assert!(matches!(ApiResponse::success(3u8), ApiResponse::Success { data: 3 }));
}

fn tar_bytes() -> Vec<u8> {
    let mut b = tar::Builder::new(Vec::new());
    let mut h = tar::Header::new_gnu();
    h.set_size(5);
    h.set_mtime(86400);
    h.set_mode(0o644);
    h.set_cksum();
    b.append_data(&mut h, "docs/a.txt", &b"hello"[..]).unwrap();
    let mut h2 = tar::Header::new_gnu();
    h2.set_size(3);
    h2.set_mtime(0);
    h2.set_cksum();
    b.append_data(&mut h2, "b.bin", &b"xyz"[..]).unwrap();
    b.into_inner().unwrap()
}

#[test]
fn tar_listing_and_extraction() {
    let data = tar_bytes();
    let info = ArchiveHandler::analyze(&data, ArchiveFormat::Tar, None).unwrap();
    assert_eq!(info.entries.len(), 2);
    assert_eq!(info.total_entries, 2);
    assert_eq!(info.entries[0].path, "docs/a.txt");
    assert_eq!(info.entries[0].name, "a.txt");
    assert_eq!(info.entries[0].size, 5);
    assert_eq!(info.entries[0].modified.as_deref(), Some("1970-01-02T00:00:00+00:00"));
    assert_eq!(info.total_uncompressed_size, 8);
    assert_eq!(info.total_compressed_size, 8);
    assert!(!info.has_more);
    let capped = ArchiveHandler::analyze(&data, ArchiveFormat::Tar, Some(1)).unwrap();
    assert_eq!(capped.entries.len(), 1);
    assert!(capped.has_more);
    let p = ArchiveHandler::extract_file(&data, ArchiveFormat::Tar, "docs/a.txt", Some(2)).unwrap();
    assert_eq!(p.content, b"he".to_vec());
    assert!(p.is_truncated);
    assert_eq!(p.total_size, 5);
    let p = ArchiveHandler::extract_file(&data, ArchiveFormat::Tar, "b.bin", None).unwrap();
    assert_eq!(p.content, b"xyz".to_vec());
    assert!(!p.is_truncated);
    assert!(matches!(
        ArchiveHandler::extract_file(&data, ArchiveFormat::Tar, "nope", None),
        Err(ArchiveError::FileNotFound(_))
    ));
    assert!(matches!(
        ArchiveHandler::analyze(&data, ArchiveFormat::Rar, None),
        Err(ArchiveError::UnsupportedFormat(_))
    ));
}

#[test]
fn tar_gz_listing_and_extraction() {
    let mut enc = flate2::write::GzEncoder::new(Vec::new(), flate2::Compression::default());
    enc.write_all(&tar_bytes()).unwrap();
    let gz = enc.finish().unwrap();
    let info = ArchiveHandler::analyze(&gz, ArchiveFormat::TarGz, None).unwrap();
    assert_eq!(info.entries.len(), 2);
    assert_eq!(info.total_compressed_size, 0);
    let p = ArchiveHandler::extract_file(&gz, ArchiveFormat::TarGz, "docs/a.txt", None).unwrap();
    assert_eq!(p.content, b"hello".to_vec());
    assert!(ArchiveHandler::analyze(b"not gzip at all", ArchiveFormat::TarGz, None).is_err());
}

fn file(name: &str, size: &str, lastmod: &str) -> dataset_viewer_backend::storage::FileInfo {
    dataset_viewer_backend::storage::FileInfo {
        filename: name.to_string(),
        basename: name.to_string(),
        lastmod: lastmod.to_string(),
        size: size.to_string(),
        file_type: "file".to_string(),
        mime: None,
        etag: None,
    }
}

fn options(sort_by: Option<&str>, order: Option<&str>, page: Option<u32>, marker: Option<&str>) -> dataset_viewer_backend::storage::ListOptions {
    dataset_viewer_backend::storage::ListOptions {
        page_size: page,
        marker: marker.map(|m| m.to_string()),
        prefix: None,
        recursive: None,
        sort_by: sort_by.map(|s| s.to_string()),
        sort_order: order.map(|s| s.to_string()),
    }
}

fn names(r: &dataset_viewer_backend::storage::DirectoryResult) -> Vec<String> {
    r.files.iter().map(|f| f.filename.clone()).collect()
}

#[test]
fn listing_sorts_by_each_key() {
    let files = || vec![file("b", "10", "2024-02"), file("a", "x", "2024-03"), file("c", "9", "2024-01")];
    let r = arrange_listing(files(), Some(&options(Some("name"), None, None, None)), "/d");
    assert_eq!(names(&r), vec!["a", "b", "c"]);
    assert_eq!(r.path, "/d");
    let r = arrange_listing(files(), Some(&options(Some("name"), Some("desc"), None, None)), "/d");
    assert_eq!(names(&r), vec!["c", "b", "a"]);
    let r = arrange_listing(files(), Some(&options(Some("size"), None, None, None)), "/d");
    assert_eq!(names(&r), vec!["a", "c", "b"]);
    let r = arrange_listing(files(), Some(&options(Some("modified"), Some("desc"), None, None)), "/d");
    assert_eq!(names(&r), vec!["a", "b", "c"]);
    let r = arrange_listing(files(), Some(&options(Some("other"), None, None, None)), "/d");
    assert_eq!(names(&r), vec!["b", "a", "c"]);
    let r = arrange_listing(files(), None, "/d");
    assert_eq!(names(&r), vec!["b", "a", "c"]);
    assert!(!r.has_more);
    assert!(r.next_marker.is_none());
}

#[test]
fn listing_pages() {
    let files = || (0..5).map(|i| file(&format!("f{}", i), "1", "t")).collect::<Vec<_>>();
    let r = arrange_listing(files(), Some(&options(None, None, Some(2), None)), "/");
    assert_eq!(names(&r), vec!["f0", "f1"]);
    assert!(r.has_more);
    assert_eq!(r.next_marker.as_deref(), Some("2"));
    let r = arrange_listing(files(), Some(&options(None, None, Some(2), Some("4"))), "/");
    assert_eq!(names(&r), vec!["f4"]);
    assert!(!r.has_more);
    assert!(r.next_marker.is_none());
    let r = arrange_listing(files(), Some(&options(None, None, Some(2), Some("junk"))), "/");
    assert_eq!(names(&r), vec!["f0", "f1"]);
    let r = arrange_listing(files(), Some(&options(None, None, Some(3), Some("9"))), "/");
    assert!(r.files.is_empty());
    assert_eq!(parse_usize("+12"), Some(12));
    assert_eq!(parse_usize("12a"), None);
    assert_eq!(parse_usize(""), None);
    assert_eq!(parse_usize("+"), None);
    assert_eq!(parse_usize("99999999999999999999999"), None);
}
