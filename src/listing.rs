//! Ordering and paging of directory listings.

use crate::storage::{DirectoryResult, FileInfo, ListOptions};
use crate::text::{decimal, decimal_string, text_eq};
use vstd::prelude::*;
use vstd::utf8::encode_utf8;

verus! {

/// Value of the decimal digits `s`.
pub open spec fn digits_value(s: Seq<char>) -> int
    decreases s.len(),
{
    if s.len() == 0 {
        0
    } else {
        digits_value(s.drop_last()) * 10 + (s.last() as int - '0' as int)
    }
}

/// `s` is one or more ASCII digits.
pub open spec fn all_digits(s: Seq<char>) -> bool {
    s.len() > 0 && forall|i: int| 0 <= i < s.len() ==> '0' <= #[trigger] s[i] <= '9'
}

/// The `u64` that `s` denotes as `str::parse` reads it: an optional `+`,
/// then decimal digits, the value within range.
pub open spec fn parsed_u64(s: Seq<char>) -> Option<u64> {
    let body = if s.len() > 0 && s[0] == '+' {
        s.drop_first()
    } else {
        s
    };
    if all_digits(body) && digits_value(body) <= u64::MAX {
        Some(digits_value(body) as u64)
    } else {
        None
    }
}

/// The `usize` that `s` denotes as `str::parse` reads it.
pub open spec fn parsed_usize(s: Seq<char>) -> Option<usize> {
    match parsed_u64(s) {
        Some(v) => if v <= usize::MAX {
            Some(v as usize)
        } else {
            None
        },
        None => None,
    }
}

proof fn lemma_digits_value_nonneg(t: Seq<char>)
    requires
        forall|k: int| 0 <= k < t.len() ==> '0' <= #[trigger] t[k] <= '9',
    ensures
        digits_value(t) >= 0,
    decreases t.len(),
{
    if t.len() > 0 {
        lemma_digits_value_nonneg(t.drop_last());
    }
}

proof fn lemma_digits_value_grows(s: Seq<char>, i: int, j: int)
    requires
        0 <= i <= j <= s.len(),
        forall|k: int| 0 <= k < s.len() ==> '0' <= #[trigger] s[k] <= '9',
    ensures
        digits_value(s.subrange(0, i)) <= digits_value(s.subrange(0, j)),
    decreases j - i,
{
    if i < j {
        lemma_digits_value_grows(s, i, j - 1);
        assert(s.subrange(0, j).drop_last() =~= s.subrange(0, j - 1));
        lemma_digits_value_nonneg(s.subrange(0, j - 1));
    }
}

/// Reads a decimal `usize` as `str::parse` does.
pub fn parse_usize(s: &str) -> (r: Option<usize>)
    ensures
        r == parsed_usize(s@),
{
    match parse_u64(s) {
        Some(v) => if v <= usize::MAX as u64 {
            Some(v as usize)
        } else {
            None
        },
        None => None,
    }
}

/// Reads a decimal `u64` as `str::parse` does.
pub fn parse_u64(s: &str) -> (r: Option<u64>)
    ensures
        r == parsed_u64(s@),
{
    let n = s.unicode_len();
    let mut i: usize = 0;
    if n > 0 && s.get_char(0) == '+' {
        i = 1;
    }
    let ghost start = i as int;
    let ghost body = s@.subrange(start, n as int);
    proof {
        if start == 1 {
            assert(body =~= s@.drop_first());
        } else {
            assert(body =~= s@);
        }
    }
    if i == n {
        return None;
    }
    let mut value: u64 = 0;
    proof {
        assert(body.subrange(0, 0) =~= Seq::<char>::empty());
    }
    while i < n
        invariant
            n == s@.len(),
            0 <= start <= i <= n,
            start < n,
            body == s@.subrange(start, n as int),
            body == (if s@.len() > 0 && s@[0] == '+' {
                s@.drop_first()
            } else {
                s@
            }),
            value as int == digits_value(body.subrange(0, i - start)),
            forall|k: int| 0 <= k < i - start ==> '0' <= #[trigger] body[k] <= '9',
        decreases n - i,
    {
        let c = s.get_char(i);
        if !('0' <= c && c <= '9') {
            assert(body[i - start] == c);
            assert(!all_digits(body));
            return None;
        }
        let d = (c as u32 - '0' as u32) as u64;
        proof {
            assert(body.subrange(0, i - start + 1).drop_last() =~= body.subrange(0, i - start));
            assert(body[i - start] == c);
        }
        if value > (u64::MAX - d) / 10 {
            proof {
                let m = u64::MAX as int;
                let v = value as int;
                let dd = d as int;
                assert(v * 10 + dd > m) by (nonlinear_arith)
                    requires
                        v > (m - dd) / 10,
                        0 <= dd <= 9,
                        m >= dd,
                ;
                assert(forall|k: int| 0 <= k < i - start + 1 ==> '0' <= #[trigger] body[k] <= '9');
                assert(digits_value(body.subrange(0, i - start + 1)) > u64::MAX);
                if all_digits(body) {
                    lemma_digits_value_grows(body, i - start + 1, body.len() as int);
                    assert(body.subrange(0, body.len() as int) =~= body);
                }
            }
            return None;
        }
        value = value * 10 + d;
        i = i + 1;
    }
    proof {
        assert(body.subrange(0, body.len() as int) =~= body);
    }
    Some(value)
}

/// The page of a listing of `len` files that starts at `start` and holds at
/// most `page_size` files: its bounds, and whether files remain after it.
pub open spec fn page_bounds(len: int, start: int, page_size: int) -> (int, int, bool) {
    let end = if start + page_size > usize::MAX {
        usize::MAX as int
    } else {
        start + page_size
    };
    let hi = if end < len {
        end
    } else {
        len
    };
    let lo = if start <= hi {
        start
    } else {
        hi
    };
    (lo, hi, end < len)
}

/// One page of a directory listing.
#[derive(Debug, Clone)]
pub struct Page {
    pub files: Vec<FileInfo>,
    pub has_more: bool,
    pub next_marker: Option<String>,
}

/// Cuts a listing into the page that `options` asks for: with a page size,
/// the files from the marker's position (0 when absent or unreadable) on,
/// at most a page of them, and the page's length as the next marker when
/// more files follow; without one, all files.
pub fn paginate(files: Vec<FileInfo>, options: Option<&ListOptions>) -> (r: Page)
    ensures
        match options {
            Some(o) if o.page_size is Some => {
                let start = match o.marker {
                    Some(m) => match parsed_usize(m@) {
                        Some(v) => v as int,
                        None => 0,
                    },
                    None => 0,
                };
                let (lo, hi, more) = page_bounds(files@.len() as int, start, o.page_size->0 as int);
                &&& r.files@ == files@.subrange(lo, hi)
                &&& r.has_more == more
                &&& (r.next_marker is Some <==> more)
                &&& (r.next_marker matches Some(m) ==> m@ == decimal((hi - lo) as nat))
            },
            _ => r.files@ == files@ && !r.has_more && r.next_marker is None,
        },
{
    let (page_size, marker) = match options {
        Some(o) => match o.page_size {
            Some(p) => (p, &o.marker),
            None => {
                return Page { files, has_more: false, next_marker: None };
            },
        },
        None => {
            return Page { files, has_more: false, next_marker: None };
        },
    };
    let start: usize = match marker {
        Some(m) => match parse_usize(m.as_str()) {
            Some(v) => v,
            None => 0,
        },
        None => 0,
    };
    let end = start.saturating_add(page_size as usize);
    let len = files.len();
    let hi = if end < len {
        end
    } else {
        len
    };
    let lo = if start <= hi {
        start
    } else {
        hi
    };
    let mut files = files;
    let mut page = files.split_off(lo);
    page.truncate(hi - lo);
    proof {
        assert(page@ =~= files@.subrange(0, 0).add(Seq::empty()).add(page@));
    }
    let has_more = end < len;
    let next_marker = if has_more {
        Some(decimal_string((hi - lo) as u64))
    } else {
        None
    };
    Page { files: page, has_more, next_marker }
}


/// The field a listing is ordered by.
#[derive(Debug, Clone, Copy, PartialEq, Eq, Structural)]
pub enum SortKey {
    Name,
    Size,
    Modified,
}

/// The ordering that listing options ask for: a key and whether it is
/// descending; `None` when the options name no known key.
pub open spec fn sort_request(o: ListOptions) -> Option<(SortKey, bool)> {
    match o.sort_by {
        Some(k) => {
            let desc = o.sort_order matches Some(d) && d@ == "desc"@;
            if k@ == "name"@ {
                Some((SortKey::Name, desc))
            } else if k@ == "size"@ {
                Some((SortKey::Size, desc))
            } else if k@ == "modified"@ {
                Some((SortKey::Modified, desc))
            } else {
                None
            }
        },
        None => None,
    }
}

/// Reads the ordering that `o` asks for.
pub fn sort_settings(o: &ListOptions) -> (r: Option<(SortKey, bool)>)
    ensures
        r == sort_request(*o),
{
    let desc = match &o.sort_order {
        Some(d) => text_eq(d.as_str(), "desc"),
        None => false,
    };
    match &o.sort_by {
        Some(k) => if text_eq(k.as_str(), "name") {
            Some((SortKey::Name, desc))
        } else if text_eq(k.as_str(), "size") {
            Some((SortKey::Size, desc))
        } else if text_eq(k.as_str(), "modified") {
            Some((SortKey::Modified, desc))
        } else {
            None
        },
        None => None,
    }
}

/// Lexicographic comparison of byte strings: -1, 0 or 1.
pub open spec fn bytes_cmp(a: Seq<u8>, b: Seq<u8>) -> int
    decreases a.len(),
{
    if a.len() == 0 {
        if b.len() == 0 {
            0
        } else {
            -1
        }
    } else if b.len() == 0 {
        1
    } else if a[0] < b[0] {
        -1
    } else if a[0] > b[0] {
        1
    } else {
        bytes_cmp(a.drop_first(), b.drop_first())
    }
}

proof fn lemma_bytes_cmp_antisymmetric(a: Seq<u8>, b: Seq<u8>)
    ensures
        bytes_cmp(a, b) == -bytes_cmp(b, a),
        -1 <= bytes_cmp(a, b) <= 1,
    decreases a.len(),
{
    if a.len() > 0 && b.len() > 0 && a[0] == b[0] {
        lemma_bytes_cmp_antisymmetric(a.drop_first(), b.drop_first());
    }
}

proof fn lemma_bytes_cmp_transitive(a: Seq<u8>, b: Seq<u8>, c: Seq<u8>)
    requires
        bytes_cmp(a, b) <= 0,
        bytes_cmp(b, c) <= 0,
    ensures
        bytes_cmp(a, c) <= 0,
    decreases a.len(),
{
    if a.len() > 0 && b.len() > 0 && c.len() > 0 && a[0] == b[0] && b[0] == c[0] {
        lemma_bytes_cmp_transitive(a.drop_first(), b.drop_first(), c.drop_first());
    }
}

fn compare_bytes(a: &[u8], b: &[u8]) -> (r: i8)
    ensures
        r as int == bytes_cmp(a@, b@),
{
    let mut i: usize = 0;
    assert(a@.subrange(0, a@.len() as int) =~= a@);
    assert(b@.subrange(0, b@.len() as int) =~= b@);
    while i < a.len() && i < b.len()
        invariant
            i <= a@.len(),
            i <= b@.len(),
            bytes_cmp(a@, b@) == bytes_cmp(a@.subrange(i as int, a@.len() as int), b@.subrange(i as int, b@.len() as int)),
        decreases a@.len() - i,
    {
        let ghost sa = a@.subrange(i as int, a@.len() as int);
        let ghost sb = b@.subrange(i as int, b@.len() as int);
        if a[i] < b[i] {
            return -1;
        }
        if a[i] > b[i] {
            return 1;
        }
        proof {
            assert(sa.drop_first() =~= a@.subrange(i + 1, a@.len() as int));
            assert(sb.drop_first() =~= b@.subrange(i + 1, b@.len() as int));
        }
        i = i + 1;
    }
    if a.len() == i && b.len() == i {
        0
    } else if a.len() == i {
        -1
    } else {
        1
    }
}

/// The number a size string stands for when sorting: its value, or 0 when
/// it does not parse.
pub open spec fn size_value(f: FileInfo) -> int {
    match parsed_u64(f.size@) {
        Some(v) => v as int,
        None => 0,
    }
}

/// Comparison of two files by `key`, ascending: -1, 0 or 1.
pub open spec fn file_cmp(a: FileInfo, b: FileInfo, key: SortKey) -> int {
    match key {
        SortKey::Name => bytes_cmp(encode_utf8(a.filename@), encode_utf8(b.filename@)),
        SortKey::Modified => bytes_cmp(encode_utf8(a.lastmod@), encode_utf8(b.lastmod@)),
        SortKey::Size => if size_value(a) < size_value(b) {
            -1
        } else if size_value(a) > size_value(b) {
            1
        } else {
            0
        },
    }
}

/// `a` may stand before `b` in a listing ordered by `key`.
pub open spec fn in_order(a: FileInfo, b: FileInfo, key: SortKey, descending: bool) -> bool {
    if descending {
        file_cmp(a, b, key) >= 0
    } else {
        file_cmp(a, b, key) <= 0
    }
}

/// `files` is ordered by `key`.
pub open spec fn sorted_by(files: Seq<FileInfo>, key: SortKey, descending: bool) -> bool {
    forall|i: int, j: int|
        0 <= i < j < files.len() ==> in_order(#[trigger] files[i], #[trigger] files[j], key, descending)
}

proof fn lemma_order_facts(a: FileInfo, b: FileInfo, c: FileInfo, key: SortKey, descending: bool)
    ensures
        !in_order(a, b, key, descending) ==> in_order(b, a, key, descending),
        in_order(a, b, key, descending) && in_order(b, c, key, descending) ==> in_order(
            a,
            c,
            key,
            descending,
        ),
{
    match key {
        SortKey::Name => {
            let (x, y, z) = (encode_utf8(a.filename@), encode_utf8(b.filename@), encode_utf8(c.filename@));
            lemma_bytes_cmp_antisymmetric(x, y);
            lemma_bytes_cmp_antisymmetric(y, z);
            lemma_bytes_cmp_antisymmetric(x, z);
            if descending {
                if bytes_cmp(y, x) <= 0 && bytes_cmp(z, y) <= 0 {
                    lemma_bytes_cmp_transitive(z, y, x);
                }
            } else if bytes_cmp(x, y) <= 0 && bytes_cmp(y, z) <= 0 {
                lemma_bytes_cmp_transitive(x, y, z);
            }
        },
        SortKey::Modified => {
            let (x, y, z) = (encode_utf8(a.lastmod@), encode_utf8(b.lastmod@), encode_utf8(c.lastmod@));
            lemma_bytes_cmp_antisymmetric(x, y);
            lemma_bytes_cmp_antisymmetric(y, z);
            lemma_bytes_cmp_antisymmetric(x, z);
            if descending {
                if bytes_cmp(y, x) <= 0 && bytes_cmp(z, y) <= 0 {
                    lemma_bytes_cmp_transitive(z, y, x);
                }
            } else if bytes_cmp(x, y) <= 0 && bytes_cmp(y, z) <= 0 {
                lemma_bytes_cmp_transitive(x, y, z);
            }
        },
        SortKey::Size => {},
    }
}

fn size_of(f: &FileInfo) -> (r: u64)
    ensures
        r as int == size_value(*f),
{
    match parse_u64(f.size.as_str()) {
        Some(v) => v,
        None => 0,
    }
}

fn compare_files(a: &FileInfo, b: &FileInfo, key: SortKey) -> (r: i8)
    ensures
        r as int == file_cmp(*a, *b, key),
{
    match key {
        SortKey::Name => compare_bytes(a.filename.as_str().as_bytes(), b.filename.as_str().as_bytes()),
        SortKey::Modified => compare_bytes(a.lastmod.as_str().as_bytes(), b.lastmod.as_str().as_bytes()),
        SortKey::Size => {
            let (x, y) = (size_of(a), size_of(b));
            if x < y {
                -1
            } else if x > y {
                1
            } else {
                0
            }
        },
    }
}

fn ordered_pair(a: &FileInfo, b: &FileInfo, key: SortKey, descending: bool) -> (r: bool)
    ensures
        r == in_order(*a, *b, key, descending),
{
    let c = compare_files(a, b, key);
    if descending {
        c >= 0
    } else {
        c <= 0
    }
}

/// Orders `files` by `key`; each file is inserted after the files already
/// placed that tie with it.
pub fn sort_files(files: Vec<FileInfo>, key: SortKey, descending: bool) -> (r: Vec<FileInfo>)
    ensures
        r@.to_multiset() == files@.to_multiset(),
        sorted_by(r@, key, descending),
{
    let mut files = files;
    let ghost original = files@;
    let mut out: Vec<FileInfo> = Vec::new();
    proof {
        broadcast use vstd::seq_lib::group_to_multiset_ensures;
        assert(original.subrange(0, 0) =~= Seq::<FileInfo>::empty());
    }
    let n = files.len();
    let mut done: usize = 0;
    proof {
        assert(original.subrange(0, n as int) =~= original);
    }
    while done < n
        invariant
            n == original.len(),
            done <= n,
            files@ == original.subrange(done as int, n as int),
            out@.to_multiset() == original.subrange(0, done as int).to_multiset(),
            sorted_by(out@, key, descending),
        decreases n - done,
    {
        let x = files.remove(0);
        proof {
            assert(files@ =~= original.subrange(done + 1, n as int));
        }
        let mut p = out.len();
        while p > 0 && !ordered_pair(&out[p - 1], &x, key, descending)
            invariant
                p <= out@.len(),
                forall|j: int| p <= j < out@.len() ==> !in_order(#[trigger] out@[j], x, key, descending),
            decreases p,
        {
            p = p - 1;
        }
        let ghost before = out@;
        proof {
            assert forall|j: int| p <= j < before.len() implies in_order(x, #[trigger] before[j], key, descending) by {
                lemma_order_facts(before[j], x, x, key, descending);
            }
            if p > 0 {
                assert forall|i: int| 0 <= i < p implies in_order(#[trigger] before[i], x, key, descending) by {
                    if i < p - 1 {
                        lemma_order_facts(before[i], before[p - 1], x, key, descending);
                    }
                }
            }
        }
        out.insert(p, x);
        proof {
            broadcast use vstd::seq_lib::group_to_multiset_ensures;
            vstd::seq_lib::to_multiset_insert(before, p as int, x);
            assert(x == original[done as int]);
            assert(original.subrange(0, done + 1) =~= original.subrange(0, done as int).push(x));
            assert forall|i: int, j: int| 0 <= i < j < out@.len() implies in_order(#[trigger] out@[i], #[trigger] out@[j], key, descending) by {
                if j < p {
                    assert(out@[i] == before[i] && out@[j] == before[j]);
                } else if j == p {
                    assert(out@[i] == before[i]);
                } else if i < p {
                    assert(out@[i] == before[i] && out@[j] == before[j - 1]);
                    lemma_order_facts(before[i], x, before[j - 1], key, descending);
                } else if i == p {
                    assert(out@[j] == before[j - 1]);
                } else {
                    assert(out@[i] == before[i - 1] && out@[j] == before[j - 1]);
                }
            }
        }
        done = done + 1;
    }
    proof {
        assert(original.subrange(0, n as int) =~= original);
    }
    out
}


/// The files of a listing in the order `options` asks for.
pub open spec fn arranged_order(files: Seq<FileInfo>, r: Seq<FileInfo>, options: Option<ListOptions>) -> bool {
    match options {
        Some(o) => match sort_request(o) {
            Some((key, desc)) => r.to_multiset() == files.to_multiset() && sorted_by(r, key, desc),
            None => r == files,
        },
        None => r == files,
    }
}

/// Orders the files of directory `path` as `options` asks, then cuts out
/// the requested page.
pub fn arrange_listing(files: Vec<FileInfo>, options: Option<&ListOptions>, path: &str) -> (r:
    DirectoryResult)
    ensures
        exists|ordered: Seq<FileInfo>|
            arranged_order(
                files@,
                ordered,
                match options {
                    Some(o) => Some(*o),
                    None => None,
                },
            ) && paged(ordered, r, options),
        r.total_count is None,
        r.path@ == path@,
{
    let ordered = match options {
        Some(o) => match sort_settings(o) {
            Some((key, desc)) => sort_files(files, key, desc),
            None => files,
        },
        None => files,
    };
    let ghost ordered_view = ordered@;
    let page = paginate(ordered, options);
    let r = DirectoryResult {
        files: page.files,
        has_more: page.has_more,
        next_marker: page.next_marker,
        total_count: None,
        path: path.to_string(),
    };
    assert(paged(ordered_view, r, options));
    r
}

/// `r` holds the page of `files` that `options` asks for.
pub open spec fn paged(files: Seq<FileInfo>, r: DirectoryResult, options: Option<&ListOptions>) -> bool {
    match options {
        Some(o) if o.page_size is Some => {
            let start = match o.marker {
                Some(m) => match parsed_usize(m@) {
                    Some(v) => v as int,
                    None => 0,
                },
                None => 0,
            };
            let (lo, hi, more) = page_bounds(files.len() as int, start, o.page_size->0 as int);
            &&& r.files@ == files.subrange(lo, hi)
            &&& r.has_more == more
            &&& (r.next_marker is Some <==> more)
            &&& (r.next_marker matches Some(m) ==> m@ == decimal((hi - lo) as nat))
        },
        _ => r.files@ == files && !r.has_more && r.next_marker is None,
    }
}

} // verus!
