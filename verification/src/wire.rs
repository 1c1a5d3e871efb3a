//! The bytes of a request.
//!
//! A request goes out as a request line, one line for each header, and an
//! empty line.

use vstd::prelude::*;
use vstd::string::StringSliceAdditionalSpecFns;
use vstd::utf8::encode_utf8;
use crate::headers::{fields, lines, map_lines, Fields, Headers};
use crate::method::Method;
use crate::text::{append_bytes, append_text};
use crate::url::{Url, UrlView};

verus! {

/// What the request line asks for: the path and, where the query is not
/// empty, a question mark and the query.
pub open spec fn request_target(url: UrlView) -> Seq<u8> {
    match url.query {
        Some(query) if query.len() > 0 => encode_utf8(url.path) + "?".spec_bytes() + encode_utf8(query),
        _ => encode_utf8(url.path),
    }
}

/// The request line: method, target and version, and the end of the line.
pub open spec fn request_line(method: Method, url: UrlView) -> Seq<u8> {
    encode_utf8(method.token()) + " ".spec_bytes() + request_target(url) + " HTTP/1.1\r\n".spec_bytes()
}

/// One header line.
pub open spec fn header_line(name: Seq<u8>, value: Seq<u8>) -> Seq<u8> {
    name + ": ".spec_bytes() + value + "\r\n".spec_bytes()
}

/// The header lines, one after the other.
pub open spec fn header_block(lines: Seq<(Seq<u8>, Seq<u8>)>) -> Seq<u8>
    decreases lines.len(),
{
    if lines.len() == 0 {
        Seq::empty()
    } else {
        header_block(lines.drop_last()) + header_line(lines.last().0, lines.last().1)
    }
}

/// The whole request: request line, header lines, empty line.
pub open spec fn message(method: Method, url: UrlView, f: Fields) -> Seq<u8> {
    request_line(method, url) + header_block(lines(f)) + "\r\n".spec_bytes()
}

/// Renders the request line of `method` for `url`.
pub fn render_request_line(method: Method, url: &Url) -> (out: Vec<u8>)
    ensures
        out@ == request_line(method, url@),
{
    let mut out: Vec<u8> = Vec::new();
    append_text(&mut out, method.as_str());
    append_text(&mut out, " ");
    append_text(&mut out, url.path());
    match url.query() {
        Some(query) => {
            if !query.is_empty() {
                append_text(&mut out, "?");
                append_text(&mut out, query);
            }
        },
        None => {},
    }
    append_text(&mut out, " HTTP/1.1\r\n");
    assert(out@ =~= request_line(method, url@));
    out
}

/// Renders the request of `method` for `url` with the headers of `headers`.
pub fn render(method: Method, url: &Url, headers: &Headers) -> (out: Vec<u8>)
    ensures
        out@ == message(method, url@, fields(*headers)),
{
    let mut out = render_request_line(method, url);
    let all = map_lines(headers);
    let ghost head = request_line(method, url@);
    let ghost rows = lines(fields(*headers));
    let mut i: usize = 0;
    assert(rows.take(0) =~= Seq::empty());
    while i < all.len()
        invariant
            i <= all@.len(),
            all@.len() == rows.len(),
            forall|k: int| 0 <= k < all@.len() ==> (#[trigger] all@[k]).0@ == rows[k].0,
            forall|k: int| 0 <= k < all@.len() ==> (#[trigger] all@[k]).1@ == rows[k].1,
            out@ == head + header_block(rows.take(i as int)),
        decreases all@.len() - i,
    {
        let row = &all[i];
        append_bytes(&mut out, row.0.as_slice());
        append_text(&mut out, ": ");
        append_bytes(&mut out, row.1.as_slice());
        append_text(&mut out, "\r\n");
        proof {
            let next = rows.take(i + 1);
            assert(next.drop_last() =~= rows.take(i as int));
            assert(next.last() == rows[i as int]);
            assert(out@ =~= head + header_block(next));
        }
        i += 1;
    }
    assert(rows.take(i as int) =~= rows);
    append_text(&mut out, "\r\n");
    assert(out@ =~= message(method, url@, fields(*headers)));
    out
}

} // verus!
