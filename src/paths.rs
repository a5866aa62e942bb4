//! Path helpers: normalisation, joining, extensions and MIME types.

use crate::archive::{format_for, ArchiveFormat};
use crate::text::{lowercase_of, text_eq, to_lowercase};
use vstd::prelude::*;
use vstd::string::*;

verus! {

/// The extension of the last component of path `p`, as `std::path::Path`
/// determines it under the build target's path rules; `None` where it has
/// none or it is not valid UTF-8.
pub uninterp spec fn extension_of(p: Seq<char>) -> Option<Seq<char>>;

/// Relies on `std::path::Path::extension` (and `OsStr::to_str`): the result
/// depends on the characters of `p` alone.
#[verifier::external_body]
fn path_extension(p: &str) -> (r: Option<String>)
    ensures
        r is Some <==> extension_of(p@) is Some,
        r matches Some(e) ==> extension_of(p@) == Some(e@),
{
    std::path::Path::new(p).extension().and_then(|e| e.to_str()).map(|e| e.to_string())
}

/// The archive format that path `p`'s extension names.
pub open spec fn format_of_path(p: Seq<char>) -> ArchiveFormat {
    format_for(
        lowercase_of(
            match extension_of(p) {
                Some(e) => e,
                None => Seq::empty(),
            },
        ),
    )
}

/// Infers the archive format from the extension of `path`.
pub fn archive_format_of(path: &str) -> (r: ArchiveFormat)
    ensures
        r == format_of_path(path@),
{
    let ext = match path_extension(path) {
        Some(e) => e,
        None => String::new(),
    };
    ArchiveFormat::from_extension(ext.as_str())
}


/// Whitespace-trimmed form of `s`, as `str::trim` defines whitespace
/// (the Unicode `White_Space` property).
pub uninterp spec fn trimmed(s: Seq<char>) -> Seq<char>;

/// Relies on `str::trim`: the result depends on the characters of `s` alone.
#[verifier::external_body]
fn trim_text(s: &str) -> (r: String)
    ensures
        r@ == trimmed(s@),
{
    s.trim().to_string()
}

/// `s` with every run of consecutive `/` replaced by a single `/`.
pub open spec fn collapse_slashes(s: Seq<char>) -> Seq<char>
    decreases s.len(),
{
    if s.len() == 0 {
        s
    } else {
        let prev = collapse_slashes(s.drop_last());
        if s.last() == '/' && s.len() >= 2 && s[s.len() - 2] == '/' {
            prev
        } else {
            prev.push(s.last())
        }
    }
}

/// `s` without one leading and one trailing `/`, each removed only where
/// something else remains.
pub open spec fn strip_slashes(s: Seq<char>) -> Seq<char> {
    let a = if s.len() > 1 && s[0] == '/' {
        s.drop_first()
    } else {
        s
    };
    if a.len() > 1 && a.last() == '/' {
        a.drop_last()
    } else {
        a
    }
}

/// The normal form of a path: trimmed, runs of `/` collapsed, no leading or
/// trailing `/` (but for the root path `/` itself).
pub open spec fn normalized(p: Seq<char>) -> Seq<char> {
    strip_slashes(collapse_slashes(trimmed(p)))
}

fn collapse_text(s: &str) -> (r: String)
    ensures
        r@ == collapse_slashes(s@),
{
    let n = s.unicode_len();
    let mut out = String::new();
    let mut i: usize = 0;
    while i < n
        invariant
            n == s@.len(),
            i <= n,
            out@ == collapse_slashes(s@.subrange(0, i as int)),
        decreases n - i,
    {
        let c = s.get_char(i);
        proof {
            let t = s@.subrange(0, i + 1);
            assert(t.drop_last() =~= s@.subrange(0, i as int));
        }
        if !(c == '/' && i >= 1 && s.get_char(i - 1) == '/') {
            out.append(s.substring_char(i, i + 1));
        }
        i = i + 1;
    }
    assert(s@.subrange(0, n as int) =~= s@);
    out
}

/// Normalises a path: trims it, collapses runs of `/`, and removes a leading
/// and a trailing `/` unless the path is just `/`.
pub fn normalize_path(path: &str) -> (r: String)
    ensures
        r@ == normalized(path@),
{
    let trimmed_path = trim_text(path);
    let collapsed = collapse_text(trimmed_path.as_str());
    let n = collapsed.as_str().unicode_len();
    let a = if n > 1 && collapsed.as_str().get_char(0) == '/' {
        String::from_str(collapsed.as_str().substring_char(1, n))
    } else {
        collapsed
    };
    let m = a.as_str().unicode_len();
    proof {
        assert(collapse_slashes(trimmed(path@)).drop_first() =~= collapse_slashes(trimmed(path@)).subrange(1, n as int));
    }
    if m > 1 && a.as_str().get_char(m - 1) == '/' {
        proof {
            assert(a@.drop_last() =~= a@.subrange(0, m - 1));
        }
        String::from_str(a.as_str().substring_char(0, m - 1))
    } else {
        a
    }
}

/// `base` and `path` joined with `/` after normalising both; an empty side
/// leaves the other.
pub open spec fn joined(base: Seq<char>, path: Seq<char>) -> Seq<char> {
    let b = normalized(base);
    let p = normalized(path);
    if b.len() == 0 {
        p
    } else if p.len() == 0 {
        b
    } else {
        b + seq!['/'] + p
    }
}

/// Joins two paths with a single `/`.
pub fn join_paths(base: &str, path: &str) -> (r: String)
    ensures
        r@ == joined(base@, path@),
{
    let b = normalize_path(base);
    let p = normalize_path(path);
    if b.as_str().unicode_len() == 0 {
        p
    } else if p.as_str().unicode_len() == 0 {
        b
    } else {
        proof {
            reveal_strlit("/");
        }
        b.concat("/").concat(p.as_str())
    }
}

/// The lower-cased extension of `filename`, if it has one.
pub open spec fn lower_extension(filename: Seq<char>) -> Option<Seq<char>> {
    match extension_of(filename) {
        Some(e) => Some(lowercase_of(e)),
        None => None,
    }
}

/// Returns the lower-cased extension of `filename`.
pub fn get_file_extension(filename: &str) -> (r: Option<String>)
    ensures
        r is Some <==> lower_extension(filename@) is Some,
        r matches Some(e) ==> lower_extension(filename@) == Some(e@),
{
    match path_extension(filename) {
        Some(e) => Some(to_lowercase(e.as_str())),
        None => None,
    }
}

/// The lower-case extensions of archive files.
pub open spec fn is_archive_extension(ext: Seq<char>) -> bool {
    ext == "zip"@ || ext == "tar"@ || ext == "gz"@ || ext == "bz2"@ || ext == "xz"@ || ext == "7z"@ || ext == "rar"@ || ext == "tgz"@ || ext == "txz"@
}

/// Whether `ext` (already lower-cased) is an archive extension.
pub fn archive_extension(ext: &str) -> (r: bool)
    ensures
        r == is_archive_extension(ext@),
{
    text_eq(ext, "zip") || text_eq(ext, "tar") || text_eq(ext, "gz") || text_eq(ext, "bz2") || text_eq(ext, "xz") || text_eq(ext, "7z") || text_eq(ext, "rar") || text_eq(ext, "tgz") || text_eq(ext, "txz")
}

/// Whether `filename` names an archive, judged by its extension.
pub fn is_archive_file(filename: &str) -> (r: bool)
    ensures
        r == (lower_extension(filename@) matches Some(e) && is_archive_extension(e)),
{
    match get_file_extension(filename) {
        Some(e) => archive_extension(e.as_str()),
        None => false,
    }
}

/// The MIME type of a lower-case extension.
pub open spec fn mime_for(ext: Seq<char>) -> Seq<char> {
    if ext == "txt"@ {
        "text/plain"@
    } else if ext == "json"@ {
        "application/json"@
    } else if ext == "csv"@ {
        "text/csv"@
    } else if ext == "xml"@ {
        "application/xml"@
    } else if ext == "html"@ || ext == "htm"@ {
        "text/html"@
    } else if ext == "css"@ {
        "text/css"@
    } else if ext == "js"@ {
        "application/javascript"@
    } else if ext == "ts"@ {
        "application/typescript"@
    } else if ext == "md"@ {
        "text/markdown"@
    } else if ext == "yaml"@ || ext == "yml"@ {
        "application/x-yaml"@
    } else if ext == "toml"@ {
        "application/toml"@
    } else if ext == "parquet"@ {
        "application/x-parquet"@
    } else if ext == "xlsx"@ {
        "application/vnd.openxmlformats-officedocument.spreadsheetml.sheet"@
    } else if ext == "xls"@ {
        "application/vnd.ms-excel"@
    } else if ext == "pptx"@ {
        "application/vnd.openxmlformats-officedocument.presentationml.presentation"@
    } else if ext == "ppt"@ {
        "application/vnd.ms-powerpoint"@
    } else if ext == "docx"@ {
        "application/vnd.openxmlformats-officedocument.wordprocessingml.document"@
    } else if ext == "doc"@ {
        "application/msword"@
    } else if ext == "pdf"@ {
        "application/pdf"@
    } else if ext == "zip"@ {
        "application/zip"@
    } else if ext == "tar"@ {
        "application/x-tar"@
    } else if ext == "gz"@ {
        "application/gzip"@
    } else if ext == "bz2"@ {
        "application/x-bzip2"@
    } else if ext == "xz"@ {
        "application/x-xz"@
    } else if ext == "7z"@ {
        "application/x-7z-compressed"@
    } else if ext == "rar"@ {
        "application/vnd.rar"@
    } else if ext == "jpg"@ || ext == "jpeg"@ {
        "image/jpeg"@
    } else if ext == "png"@ {
        "image/png"@
    } else if ext == "gif"@ {
        "image/gif"@
    } else if ext == "bmp"@ {
        "image/bmp"@
    } else if ext == "webp"@ {
        "image/webp"@
    } else if ext == "svg"@ {
        "image/svg+xml"@
    } else if ext == "ico"@ {
        "image/x-icon"@
    } else if ext == "mp4"@ {
        "video/mp4"@
    } else if ext == "avi"@ {
        "video/x-msvideo"@
    } else if ext == "mov"@ {
        "video/quicktime"@
    } else if ext == "wmv"@ {
        "video/x-ms-wmv"@
    } else if ext == "flv"@ {
        "video/x-flv"@
    } else if ext == "webm"@ {
        "video/webm"@
    } else if ext == "mp3"@ {
        "audio/mpeg"@
    } else if ext == "wav"@ {
        "audio/wav"@
    } else if ext == "flac"@ {
        "audio/flac"@
    } else if ext == "ogg"@ {
        "audio/ogg"@
    } else {
        "application/octet-stream"@
    }
}

/// Looks up the MIME type of a lower-case extension.
pub fn mime_type_for(ext: &str) -> (r: &'static str)
    ensures
        r@ == mime_for(ext@),
{
    if text_eq(ext, "txt") {
        "text/plain"
    } else if text_eq(ext, "json") {
        "application/json"
    } else if text_eq(ext, "csv") {
        "text/csv"
    } else if text_eq(ext, "xml") {
        "application/xml"
    } else if text_eq(ext, "html") || text_eq(ext, "htm") {
        "text/html"
    } else if text_eq(ext, "css") {
        "text/css"
    } else if text_eq(ext, "js") {
        "application/javascript"
    } else if text_eq(ext, "ts") {
        "application/typescript"
    } else if text_eq(ext, "md") {
        "text/markdown"
    } else if text_eq(ext, "yaml") || text_eq(ext, "yml") {
        "application/x-yaml"
    } else if text_eq(ext, "toml") {
        "application/toml"
    } else if text_eq(ext, "parquet") {
        "application/x-parquet"
    } else if text_eq(ext, "xlsx") {
        "application/vnd.openxmlformats-officedocument.spreadsheetml.sheet"
    } else if text_eq(ext, "xls") {
        "application/vnd.ms-excel"
    } else if text_eq(ext, "pptx") {
        "application/vnd.openxmlformats-officedocument.presentationml.presentation"
    } else if text_eq(ext, "ppt") {
        "application/vnd.ms-powerpoint"
    } else if text_eq(ext, "docx") {
        "application/vnd.openxmlformats-officedocument.wordprocessingml.document"
    } else if text_eq(ext, "doc") {
        "application/msword"
    } else if text_eq(ext, "pdf") {
        "application/pdf"
    } else if text_eq(ext, "zip") {
        "application/zip"
    } else if text_eq(ext, "tar") {
        "application/x-tar"
    } else if text_eq(ext, "gz") {
        "application/gzip"
    } else if text_eq(ext, "bz2") {
        "application/x-bzip2"
    } else if text_eq(ext, "xz") {
        "application/x-xz"
    } else if text_eq(ext, "7z") {
        "application/x-7z-compressed"
    } else if text_eq(ext, "rar") {
        "application/vnd.rar"
    } else if text_eq(ext, "jpg") || text_eq(ext, "jpeg") {
        "image/jpeg"
    } else if text_eq(ext, "png") {
        "image/png"
    } else if text_eq(ext, "gif") {
        "image/gif"
    } else if text_eq(ext, "bmp") {
        "image/bmp"
    } else if text_eq(ext, "webp") {
        "image/webp"
    } else if text_eq(ext, "svg") {
        "image/svg+xml"
    } else if text_eq(ext, "ico") {
        "image/x-icon"
    } else if text_eq(ext, "mp4") {
        "video/mp4"
    } else if text_eq(ext, "avi") {
        "video/x-msvideo"
    } else if text_eq(ext, "mov") {
        "video/quicktime"
    } else if text_eq(ext, "wmv") {
        "video/x-ms-wmv"
    } else if text_eq(ext, "flv") {
        "video/x-flv"
    } else if text_eq(ext, "webm") {
        "video/webm"
    } else if text_eq(ext, "mp3") {
        "audio/mpeg"
    } else if text_eq(ext, "wav") {
        "audio/wav"
    } else if text_eq(ext, "flac") {
        "audio/flac"
    } else if text_eq(ext, "ogg") {
        "audio/ogg"
    } else {
        "application/octet-stream"
    }
}

/// Guesses the MIME type of `filename` from its extension;
/// `application/octet-stream` when it has none or an unknown one.
pub fn guess_mime_type(filename: &str) -> (r: String)
    ensures
        r@ == match lower_extension(filename@) {
            Some(e) => mime_for(e),
            None => "application/octet-stream"@,
        },
{
    match get_file_extension(filename) {
        Some(e) => String::from_str(mime_type_for(e.as_str())),
        None => String::from_str("application/octet-stream"),
    }
}

} // verus!
