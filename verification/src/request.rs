//! Framing a request as the bytes that go over the wire.

use crate::decimal::{decimal_text, write_unsigned};
use crate::headers::{Field, Headers};
use crate::http_client::HttpMethod;
use vstd::prelude::*;
use vstd::string::{StrSliceExecFns, StringExecFns};
use vstd::utf8::encode_utf8;

verus! {

/// The name of a method as it stands in the request line.
pub open spec fn method_name(method: HttpMethod) -> Seq<char> {
    match method {
        HttpMethod::GET => "GET"@,
        HttpMethod::POST => "POST"@,
        HttpMethod::PUT => "PUT"@,
        HttpMethod::DELETE => "DELETE"@,
        HttpMethod::HEAD => "HEAD"@,
        HttpMethod::OPTIONS => "OPTIONS"@,
    }
}

/// One line for each field, in their order: the name, a colon and a blank,
/// the value, and the line end. Nothing is escaped or folded.
pub open spec fn header_lines(fields: Seq<Field>) -> Seq<char>
    decreases fields.len(),
{
    if fields.len() == 0 {
        Seq::empty()
    } else {
        header_lines(fields.drop_last()) + fields.last().0 + ": "@ + fields.last().1 + "\r\n"@
    }
}

/// The line that declares the length of `body` in bytes; nothing where
/// there is no body.
pub open spec fn length_line(body: Option<Seq<char>>) -> Seq<char> {
    match body {
        Some(text) => "Content-Length: "@ + decimal_text(encode_utf8(text).len()) + "\r\n"@,
        None => Seq::empty(),
    }
}

/// The text of a request: the request line, the `Host` line, the line that
/// asks the peer to close the connection after the response, the lines of
/// the fields, the length line where there is a body, an empty line, and
/// the body as it is.
pub open spec fn request_text(
    method: HttpMethod,
    path: Seq<char>,
    host: Seq<char>,
    fields: Seq<Field>,
    body: Option<Seq<char>>,
) -> Seq<char> {
    method_name(method) + " "@ + path + " HTTP/1.1\r\nHost: "@ + host
        + "\r\nConnection: close\r\n"@ + header_lines(fields) + length_line(body) + "\r\n"@ + (
    match body {
        Some(text) => text,
        None => Seq::empty(),
    })
}

/// The fields of optional headers; none where there are no headers.
pub open spec fn fields_of_headers(headers: Option<Headers>) -> Seq<Field> {
    match headers {
        Some(h) => h@,
        None => Seq::empty(),
    }
}

/// The text of an optional body.
pub open spec fn text_of_body(body: Option<String>) -> Option<Seq<char>> {
    match body {
        Some(text) => Some(text@),
        None => None,
    }
}

/// The name of `method` as it stands in the request line.
pub fn method_token(method: HttpMethod) -> (r: &'static str)
    ensures
        r@ == method_name(method),
{
    match method {
        HttpMethod::GET => "GET",
        HttpMethod::POST => "POST",
        HttpMethod::PUT => "PUT",
        HttpMethod::DELETE => "DELETE",
        HttpMethod::HEAD => "HEAD",
        HttpMethod::OPTIONS => "OPTIONS",
    }
}

/// Writes the text of a request.
pub fn write_request(
    method: HttpMethod,
    path: &str,
    host: &str,
    headers: &Option<Headers>,
    body: &Option<String>,
) -> (r: String)
    ensures
        r@ == request_text(method, path@, host@, fields_of_headers(*headers), text_of_body(*body)),
{
    let mut text = String::from_str(method_token(method));
    text.append(" ");
    text.append(path);
    text.append(" HTTP/1.1\r\nHost: ");
    text.append(host);
    text.append("\r\nConnection: close\r\n");
    let ghost start = text@;
    let ghost fields = fields_of_headers(*headers);
    match headers {
        Some(h) => {
            let mut i: usize = 0;
            while i < h.len()
                invariant
                    i <= h@.len(),
                    fields == h@,
                    text@ == start + header_lines(fields.take(i as int)),
                decreases h@.len() - i,
            {
                let ghost before = text@;
                text.append(h.name_at(i).as_str());
                text.append(": ");
                text.append(h.value_at(i).as_str());
                text.append("\r\n");
                proof {
                    assert(fields.take(i + 1).drop_last() =~= fields.take(i as int));
                    assert(fields.take(i + 1).last() == fields[i as int]);
                    assert(text@ =~= start + header_lines(fields.take(i + 1)));
                }
                i += 1;
            }
            assert(fields.take(i as int) =~= fields);
        },
        None => {
            assert(text@ =~= start + header_lines(fields));
        },
    }
    let ghost with_fields = text@;
    match body {
        Some(b) => {
            text.append("Content-Length: ");
            text.append(write_unsigned(b.as_str().as_bytes().len() as u64).as_str());
            text.append("\r\n");
            assert(text@ =~= with_fields + length_line(text_of_body(*body)));
            text.append("\r\n");
            text.append(b.as_str());
        },
        None => {
            text.append("\r\n");
        },
    }
    assert(text@ =~= request_text(
        method,
        path@,
        host@,
        fields_of_headers(*headers),
        text_of_body(*body),
    ));
    text
}

/// Frames a request as the bytes to send.
pub fn frame_request(
    method: HttpMethod,
    path: &str,
    host: &str,
    headers: &Option<Headers>,
    body: &Option<String>,
) -> (r: Vec<u8>)
    ensures
        r@ == encode_utf8(
            request_text(method, path@, host@, fields_of_headers(*headers), text_of_body(*body)),
        ),
{
    write_request(method, path, host, headers, body).as_str().as_bytes_vec()
}

} // verus!
