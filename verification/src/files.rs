//! Serving files: the content type of a path, the byte range a request asks
//! for, and the heads of whole and partial file replies.
use vstd::prelude::*;
use crate::http::{
    HttpRequest, HttpResponse, HttpStatusCode, default_header_text, header_text,
    lemma_header_text_inserted,
};
use crate::keyed::{has_key, inserted, key_index, lookup};
use crate::respond::{get_header, head_text};
use crate::text::{
    index_of, law_decimal_roundtrip, lemma_pieces_concat,
    decimal, decimal_value, parse_u64, pieces, split_all, split_once, split_once_at, str_equals,
    u64_to_string, usize_to_string,
};

verus! {

// ---------------------------------------------------------------- content type

/// The last component of a path split at `/`, skipping empty and `.` parts.
pub open spec fn last_component(ps: Seq<Seq<char>>) -> Option<Seq<char>>
    decreases ps.len(),
{
    if ps.len() == 0 {
        None
    } else if ps.last().len() == 0 || ps.last() == "."@ {
        last_component(ps.drop_last())
    } else {
        Some(ps.last())
    }
}

/// The file name of a path, as `Path::file_name` gives it: its last
/// component, none when that is `..` or when there is no component.
pub open spec fn file_name(path: Seq<char>) -> Option<Seq<char>> {
    match last_component(pieces(path, '/')) {
        Some(c) => if c == ".."@ {
            None
        } else {
            Some(c)
        },
        None => None,
    }
}

/// The extension of a file name, as `Path::extension` gives it: the text
/// after the last `.`; none when there is no `.`, or when the only `.` opens
/// the name.
pub open spec fn extension(name: Seq<char>) -> Option<Seq<char>> {
    let p = pieces(name, '.');
    if p.len() < 2 || (p.len() == 2 && p[0].len() == 0) {
        None
    } else {
        Some(p.last())
    }
}

/// The media type served for an extension.
pub open spec fn mime_of(ext: Seq<char>) -> Seq<char> {
    if ext == "html"@ {
        "text/html"@
    } else if ext == "css"@ {
        "text/css"@
    } else if ext == "js"@ {
        "application/javascript"@
    } else if ext == "json"@ {
        "application/json"@
    } else if ext == "mp4"@ {
        "video/mp4"@
    } else if ext == "png"@ {
        "image/png"@
    } else if ext == "jpg"@ {
        "image/jpeg"@
    } else if ext == "jpeg"@ {
        "image/jpeg"@
    } else if ext == "gif"@ {
        "image/gif"@
    } else if ext == "svg"@ {
        "image/svg+xml"@
    } else if ext == "ico"@ {
        "image/x-icon"@
    } else if ext == "txt"@ {
        "text/plain"@
    } else {
        "application/octet-stream"@
    }
}

/// The media type served for a path: by the extension of its file name,
/// `application/octet-stream` when there is none.
pub open spec fn content_type_of(path: Seq<char>) -> Seq<char> {
    match file_name(path) {
        Some(n) => match extension(n) {
            Some(e) => mime_of(e),
            None => "application/octet-stream"@,
        },
        None => "application/octet-stream"@,
    }
}

fn file_name_of(path: &str) -> (r: Option<String>)
    ensures
        r is Some <==> file_name(path@) is Some,
        r matches Some(n) ==> n@ == file_name(path@)->0,
{
    let parts = split_all(path, '/');
    let ghost ps = pieces(path@, '/');
    let mut i = parts.len();
    assert(ps.take(i as int) =~= ps);
    while i > 0
        invariant
            i <= parts@.len(),
            parts@.map_values(|p: String| p@) == ps,
            ps == pieces(path@, '/'),
            last_component(ps) == last_component(ps.take(i as int)),
        decreases i,
    {
        let piece = parts[i - 1].as_str();
        assert(ps[i - 1] == parts@[i - 1]@);
        assert(ps.take(i as int).last() == ps[i - 1]);
        assert(ps.take(i as int).drop_last() =~= ps.take(i - 1));
        if piece.unicode_len() != 0 && !str_equals(piece, ".") {
            if str_equals(piece, "..") {
                return None;
            }
            return Some(piece.to_owned());
        }
        i = i - 1;
    }
    None
}

fn extension_of(name: &str) -> (r: Option<String>)
    ensures
        r is Some <==> extension(name@) is Some,
        r matches Some(e) ==> e@ == extension(name@)->0,
{
    let parts = split_all(name, '.');
    let ghost p = pieces(name@, '.');
    assert(parts@.len() == p.len());
    let n = parts.len();
    if n < 2 {
        return None;
    }
    assert(p[0] == parts@[0]@);
    if n == 2 && parts[0].as_str().unicode_len() == 0 {
        return None;
    }
    assert(p.last() == parts@[n - 1]@);
    Some(parts[n - 1].clone())
}

fn mime_for(ext: &str) -> (r: &'static str)
    ensures
        r@ == mime_of(ext@),
{
    if str_equals(ext, "html") {
        "text/html"
    } else if str_equals(ext, "css") {
        "text/css"
    } else if str_equals(ext, "js") {
        "application/javascript"
    } else if str_equals(ext, "json") {
        "application/json"
    } else if str_equals(ext, "mp4") {
        "video/mp4"
    } else if str_equals(ext, "png") {
        "image/png"
    } else if str_equals(ext, "jpg") {
        "image/jpeg"
    } else if str_equals(ext, "jpeg") {
        "image/jpeg"
    } else if str_equals(ext, "gif") {
        "image/gif"
    } else if str_equals(ext, "svg") {
        "image/svg+xml"
    } else if str_equals(ext, "ico") {
        "image/x-icon"
    } else if str_equals(ext, "txt") {
        "text/plain"
    } else {
        "application/octet-stream"
    }
}

/// The media type to serve the file at `file_path` with.
pub fn get_file_content(file_path: &str) -> (r: &'static str)
    ensures
        r@ == content_type_of(file_path@),
{
    match file_name_of(file_path) {
        Some(name) => match extension_of(name.as_str()) {
            Some(ext) => mime_for(ext.as_str()),
            None => "application/octet-stream",
        },
        None => "application/octet-stream",
    }
}

// ---------------------------------------------------------------- ranges

/// The size of the window served when a range gives no (readable) end.
pub open spec fn chunk_size() -> nat {
    1048576
}

/// The start and end texts of a `Range: bytes=start-end` header.
pub open spec fn range_fields(h: Seq<(Seq<char>, String)>) -> Option<(Seq<char>, Seq<char>)> {
    match lookup(h, "Range"@) {
        Some(v) => match split_once(v@, '=') {
            Some(parts) => if parts.0 == "bytes"@ {
                split_once(parts.1, '-')
            } else {
                None
            },
            None => None,
        },
        None => None,
    }
}

/// `s` read as a `u64`, or `d` when it does not read as one.
pub open spec fn u64_or(s: Seq<char>, d: nat) -> nat {
    match decimal_value(s) {
        Some(n) => if n <= u64::MAX {
            n
        } else {
            d
        },
        None => d,
    }
}

/// The first and last byte that a request asks for: an unreadable start is
/// 0; an unreadable end is one window past the start.
pub open spec fn range_of(h: Seq<(Seq<char>, String)>) -> Option<(nat, nat)> {
    match range_fields(h) {
        Some(f) => Some((u64_or(f.0, 0), u64_or(f.1, u64_or(f.0, 0) + chunk_size()))),
        None => None,
    }
}

/// The start of the range is so large that one window past it is beyond
/// `u64::MAX` (where computing the default end overflows).
pub open spec fn range_overflows(h: Seq<(Seq<char>, String)>) -> bool {
    match range_fields(h) {
        Some(f) => u64_or(f.0, 0) + chunk_size() > u64::MAX,
        None => false,
    }
}

fn range_fields_of(request: &HttpRequest) -> (r: Option<(String, String)>)
    ensures
        r is Some <==> range_fields(request.header@) is Some,
        r matches Some(f) ==> (f.0@, f.1@) == range_fields(request.header@)->0,
{
    if let Some(range) = request.header.get("Range") {
        if let Some((first, second)) = split_once_at(range.as_str(), '=') {
            if str_equals(first.as_str(), "bytes") {
                return split_once_at(second.as_str(), '-');
            }
        }
    }
    None
}

fn u64_or_exec(s: &str, d: u64) -> (r: u64)
    ensures
        r == u64_or(s@, d as nat),
{
    match parse_u64(s) {
        Some(n) => n,
        None => d,
    }
}

/// Whether reading the range of `request` would overflow.
pub fn range_start_overflows(request: &HttpRequest) -> (b: bool)
    ensures
        b == range_overflows(request.header@),
{
    match range_fields_of(request) {
        Some((start, _end)) => {
            let start_byte = u64_or_exec(start.as_str(), 0);
            start_byte > 18446744073709551615u64 - 1048576u64
        },
        None => false,
    }
}

/// The byte range that a `Range: bytes=start-end` header asks for.
pub fn get_range(request: &HttpRequest) -> (r: Option<(u64, u64)>)
    requires
        !range_overflows(request.header@),
    ensures
        r is Some <==> range_of(request.header@) is Some,
        r matches Some(p) ==> (p.0 as nat, p.1 as nat) == range_of(request.header@)->0,
{
    let chunk_size: u64 = 1024 * 1024 * 1;
    if let Some((start, end)) = range_fields_of(request) {
        let start_byte = u64_or_exec(start.as_str(), 0);
        let end_byte = u64_or_exec(end.as_str(), start_byte + chunk_size);
        return Some((start_byte, end_byte));
    }
    None
}

// ---------------------------------------------------------------- file replies

/// The reply to a file request before the file is read: a new response whose
/// `Content-Type` is that of the path.
pub fn static_response(path: &str) -> (r: HttpResponse)
    ensures
        r.status == HttpStatusCode::Success,
        r.body is None,
        header_text(r.header@) == default_header_text().update(
            0,
            ("Content-Type"@, content_type_of(path@)),
        ),
{
    let mut response = HttpResponse::new();
    let ghost h0 = response.header@;
    let t = String::from_str(get_file_content(path));
    let ghost v = t;
    let _ = response.header.len();
    response.set_header(String::from_str("Content-Type"), t);
    proof {
        lemma_header_text_inserted(h0, "Content-Type"@, v);
        let d = default_header_text();
        assert(d[0].0 == "Content-Type"@);
        assert(has_key(d, "Content-Type"@));
        assert(key_index(d, "Content-Type"@) == 0);
    }
    response
}

/// The head of a reply carrying a whole file of `len` bytes: `response` with
/// `Content-Length` set to `len`.
pub fn whole_file_head(response: HttpResponse, len: usize) -> (r: String)
    ensures
        r@ == head_text(
            response.status,
            inserted(header_text(response.header@), "Content-Length"@, decimal(len as nat)),
        ),
{
    let mut response = response;
    let ghost h0 = response.header@;
    let t = usize_to_string(len);
    let ghost v = t;
    let _ = response.header.len();
    response.set_header(String::from_str("Content-Length"), t);
    proof {
        lemma_header_text_inserted(h0, "Content-Length"@, v);
    }
    get_header(&response)
}

/// The last byte served: the requested end, or the last byte of the file
/// when the request reaches past it.
pub open spec fn chunk_last(end: nat, file_size: nat) -> nat {
    if file_size <= end {
        (file_size - 1) as nat
    } else {
        end
    }
}

/// A window that can be served: the file is not empty when the request
/// reaches past it, the window does not end before it starts, and its
/// length fits in a `usize`.
pub open spec fn chunk_ok(start: nat, end: nat, file_size: nat) -> bool {
    &&& file_size <= end ==> file_size > 0
    &&& start <= chunk_last(end, file_size)
    &&& chunk_last(end, file_size) - start < usize::MAX
}

/// Whether a range from `start` to `end` can be served from a file of
/// `file_size` bytes.
pub fn chunk_in_bounds(start: u64, end: u64, file_size: u64) -> (b: bool)
    ensures
        b == chunk_ok(start as nat, end as nat, file_size as nat),
{
    if file_size <= end && file_size == 0 {
        return false;
    }
    let last = if file_size <= end {
        file_size - 1
    } else {
        end
    };
    start <= last && ((last - start) as u128) < (usize::MAX as u128)
}

/// The `Content-Range` value of a window.
pub open spec fn content_range(start: nat, last: nat, file_size: nat) -> Seq<char> {
    "bytes "@ + decimal(start) + "-"@ + decimal(last) + "/"@ + (if file_size == 0 {
        "*"@
    } else {
        decimal(file_size)
    })
}

/// Where to read, how much, and what head to write, for a partial file reply.
pub struct ChunkPlan {
    pub offset: u64,
    pub len: usize,
    pub head: String,
}

/// The window of a file of `file_size` bytes that a range from `start` to
/// `end` serves, and the `206 Partial Content` head that announces it.
pub fn plan_chunk(response: HttpResponse, start: u64, end: u64, file_size: u64) -> (r: ChunkPlan)
    requires
        chunk_ok(start as nat, end as nat, file_size as nat),
    ensures
        r.offset == start,
        r.offset + r.len <= file_size,
        r.len == chunk_last(end as nat, file_size as nat) - start + 1,
        r.head@ == head_text(
            HttpStatusCode::PartialContent,
            inserted(
                inserted(
                    header_text(response.header@),
                    "Content-Range"@,
                    content_range(
                        start as nat,
                        chunk_last(end as nat, file_size as nat),
                        file_size as nat,
                    ),
                ),
                "Content-Length"@,
                decimal(r.len as nat),
            ),
        ),
{
    let mut response = response;
    let mut end_byte = end;
    if file_size <= end_byte {
        end_byte = file_size - 1;
    }
    let buffer_size = (end_byte - start) as usize + 1;
    response.status = HttpStatusCode::PartialContent;
    let mut range = String::from_str("bytes ");
    let s1 = u64_to_string(start);
    range.append(s1.as_str());
    range.append("-");
    let s2 = u64_to_string(end_byte);
    range.append(s2.as_str());
    range.append("/");
    if file_size == 0 {
        range.append("*");
    } else {
        let s3 = u64_to_string(file_size);
        range.append(s3.as_str());
    }
    assert(range@ =~= content_range(start as nat, end_byte as nat, file_size as nat));
    let ghost h0 = response.header@;
    let ghost v1 = range;
    let _ = response.header.len();
    response.set_header(String::from_str("Content-Range"), range);
    proof {
        lemma_header_text_inserted(h0, "Content-Range"@, v1);
    }
    let ghost h1 = response.header@;
    let t = usize_to_string(buffer_size);
    let ghost v2 = t;
    let _ = response.header.len();
    response.set_header(String::from_str("Content-Length"), t);
    proof {
        lemma_header_text_inserted(h1, "Content-Length"@, v2);
    }
    let head = get_header(&response);
    ChunkPlan { offset: start, len: buffer_size, head }
}

// ---------------------------------------------------------------- laws

/// The file name of a path is its last component: under any folder `d`, a
/// name `n` without `/` (and not empty, `.` or `..`) is the file name, so the
/// content type of `d/n` is that of `n` alone.
pub proof fn law_content_type_by_last_component(d: Seq<char>, n: Seq<char>)
    requires
        index_of(n, '/') is None,
        n.len() > 0,
        n != "."@,
        n != ".."@,
    ensures
        file_name(d + "/"@ + n) == Some(n),
        file_name(n) == Some(n),
        content_type_of(d + "/"@ + n) == content_type_of(n),
{
    reveal_strlit("/");
    assert(d + "/"@ + n =~= d + seq!['/'] + n);
    lemma_pieces_concat(d, '/', n);
    reveal_with_fuel(pieces, 1);
    assert(pieces(n, '/') == seq![n]);
    let ps = pieces(d, '/') + seq![n];
    assert(ps.last() == n);
    assert(last_component(ps) == Some(n));
    assert(seq![n].last() == n);
    assert(last_component(seq![n]) == Some(n));
}

/// A range `bytes=a-b` whose start and end read as numbers serves exactly
/// from `a` to `b`. Whatever the start, an end that reads as a number is that
/// number, and a start that reads as a number is that number; an end that
/// does not read as one is a window past the start.
pub proof fn law_range_exact(
    h: Seq<(Seq<char>, String)>,
    start: Seq<char>,
    end: Seq<char>,
    a: nat,
    b: nat,
)
    ensures
        range_fields(h) is None <==> range_of(h) is None,
        range_fields(h) == Some((start, end)) && decimal_value(end) == Some(b) && b <= u64::MAX
            ==> (range_of(h) matches Some(r) && r.1 == b),
        range_fields(h) == Some((start, end)) && decimal_value(start) == Some(a) && a
            <= u64::MAX ==> (range_of(h) matches Some(r) && r.0 == a),
        range_fields(h) == Some((start, end)) && decimal_value(end) is None ==> (range_of(
            h,
        ) matches Some(r) && r.1 == r.0 + chunk_size()),
{
}

/// The numbers written in a range header are the range served.
pub proof fn law_range_of_written_numbers(h: Seq<(Seq<char>, String)>, a: nat, b: nat)
    requires
        range_fields(h) == Some((decimal(a), decimal(b))),
        a <= u64::MAX,
        b <= u64::MAX,
    ensures
        range_of(h) == Some((a, b)),
{
    law_decimal_roundtrip(a);
    law_decimal_roundtrip(b);
}

} // verus!
