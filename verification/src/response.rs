//! Deciding when the bytes received so far make a whole response, and
//! reading the status code and the body out of them.

use crate::bytes::{
    ends_with, find, find_line_with, finishes_with, first_line_with, first_match, is_least,
    is_line_start, is_space, least_from, lemma_least_from, lemma_least_from_is,
    lemma_least_from_none, lower, matches_at, matches_folded_at, occurs, scan, scan_for, trim,
    trimmed, ByteClass, LINE_FEED,
};
use crate::decimal::{
    all_digits, decimal_digits, is_digit, lemma_digits_denote, parse_unsigned, read_unsigned,
    without_sign,
};
use crate::http_client::{HttpResponse, HttpResponseView};
use vstd::prelude::*;
use vstd::slice::slice_subrange;
use vstd::string::StringSliceAdditionalSpecFns;
use vstd::utf8::{decode_utf8, valid_utf8};

verus! {

/// The empty line that ends the header block.
pub open spec fn blank_line() -> Seq<u8> {
    "\r\n\r\n".spec_bytes()
}

/// The start of a header line that declares the length of the body.
pub open spec fn length_name() -> Seq<u8> {
    "content-length:".spec_bytes()
}

/// The header that announces a body sent in chunks.
pub open spec fn chunked_header() -> Seq<u8> {
    "Transfer-Encoding: chunked".spec_bytes()
}

/// The last chunk of a body sent in chunks.
pub open spec fn last_chunk() -> Seq<u8> {
    "\r\n0\r\n\r\n".spec_bytes()
}

/// The index at which the header block ends, once the empty line after it
/// has been received.
pub open spec fn header_end(buffer: Seq<u8>) -> Option<int> {
    first_match(buffer, blank_line())
}

/// The body length that the header line starting at `line` of `block`
/// declares: what stands between the colon and the next colon or the end of
/// the line, without the white space round it.
pub open spec fn length_value(block: Seq<u8>, line: int) -> Option<nat> {
    let from = line + length_name().len();
    parse_unsigned(
        trimmed(block.subrange(from, scan(block, from, ByteClass::FieldEnd))),
        usize::MAX as nat,
    )
}

/// Whether `buffer` holds a whole response.
///
/// It does not before the header block has ended. After that, a block with
/// a length line is whole once as many body bytes as the line declares have
/// followed it, and never if the line declares no readable number. A block
/// without a length line that announces chunks is whole once the buffer
/// ends with the last chunk. Any other response ends only when the peer
/// closes the connection.
pub open spec fn response_complete(buffer: Seq<u8>) -> bool {
    match header_end(buffer) {
        None => false,
        Some(end) => {
            let block = buffer.take(end);
            match first_line_with(block, length_name()) {
                Some(line) => match length_value(block, line) {
                    Some(n) => buffer.len() - (end + blank_line().len()) >= n,
                    None => false,
                },
                None => occurs(block, chunked_header()) && ends_with(buffer, last_chunk()),
            }
        },
    }
}

/// The second run of visible bytes of `line`; empty where there is none.
pub open spec fn second_token(line: Seq<u8>) -> Seq<u8> {
    let first = scan(line, 0, ByteClass::Visible);
    let gap = scan(line, first, ByteClass::Space);
    let second = scan(line, gap, ByteClass::Visible);
    line.subrange(second, scan(line, second, ByteClass::Space))
}

/// The status code of the response in `buffer`: the number that the second
/// token of its first line denotes, tokens being the runs of visible bytes
/// between white space. Zero where the first line has no second token, or
/// where that token is no number below 65536.
pub open spec fn status_code(buffer: Seq<u8>) -> u16 {
    let line = buffer.take(scan(buffer, 0, ByteClass::LineEnd));
    match parse_unsigned(second_token(line), u16::MAX as nat) {
        Some(n) => n as u16,
        None => 0,
    }
}

/// The bytes after the empty line that ends the header block; none where
/// the header block has not ended.
pub open spec fn body_bytes(buffer: Seq<u8>) -> Seq<u8> {
    match header_end(buffer) {
        Some(end) => buffer.skip(end + blank_line().len()),
        None => Seq::empty(),
    }
}

/// What `String::from_utf8_lossy` makes of bytes that are not valid UTF-8.
pub uninterp spec fn repaired_text(bytes: Seq<u8>) -> Seq<char>;

/// The text that `bytes` encode, with each invalid sequence replaced.
pub open spec fn lossy_text(bytes: Seq<u8>) -> Seq<char> {
    if valid_utf8(bytes) {
        decode_utf8(bytes)
    } else {
        repaired_text(bytes)
    }
}

/// The response that `buffer` is read as.
pub open spec fn parsed(buffer: Seq<u8>) -> HttpResponseView {
    HttpResponseView {
        status_code: status_code(buffer),
        body: lossy_text(body_bytes(buffer)),
        error: None,
    }
}

/// How far the response in a buffer has come.
#[derive(Clone, Copy, Debug, PartialEq, Eq)]
pub enum AssemblerState {
    /// The empty line that ends the header block has not been received.
    SeekingHeaders,
    /// The header block has ended and the response is not yet whole.
    HeadersFound,
    /// The response is whole.
    Complete,
}

/// The state of an assembler that has received `buffer`.
pub open spec fn state_of(buffer: Seq<u8>) -> AssemblerState {
    if header_end(buffer) is None {
        AssemblerState::SeekingHeaders
    } else if response_complete(buffer) {
        AssemblerState::Complete
    } else {
        AssemblerState::HeadersFound
    }
}

/// Whether `head` is a header block with the empty line that ends it, and
/// nothing after.
pub open spec fn is_head(head: Seq<u8>) -> bool {
    header_end(head) == Some(head.len() - blank_line().len())
}

/// The header lines of a head, without the empty line.
pub open spec fn block_of(head: Seq<u8>) -> Seq<u8> {
    head.take(head.len() - blank_line().len())
}

/// Whether the header block of `head` has a length line that declares `n`
/// body bytes.
pub open spec fn declares_length(head: Seq<u8>, n: nat) -> bool {
    match first_line_with(block_of(head), length_name()) {
        Some(line) => length_value(block_of(head), line) == Some(n),
        None => false,
    }
}

/// Whether the header block of `head` has no length line and announces a
/// body sent in chunks.
pub open spec fn announces_chunks(head: Seq<u8>) -> bool {
    first_line_with(block_of(head), length_name()) is None && occurs(
        block_of(head),
        chunked_header(),
    )
}

/// The empty line that ends the header block is four bytes long: a carriage
/// return and a line feed, twice.
pub proof fn lemma_blank_line()
    ensures
        blank_line() == seq![13u8, 10u8, 13u8, 10u8],
{
    reveal_strlit("\r\n\r\n");
    let line = "\r\n\r\n";
    assert(line@ =~= seq!['\r', '\n', '\r', '\n']);
    assert(vstd::string::is_ascii(line));
    vstd::string::is_ascii_spec_bytes(line);
    assert(blank_line() =~= seq![13u8, 10u8, 13u8, 10u8]);
}

/// A buffer of fewer than four bytes holds no whole header block.
pub proof fn lemma_headers_need_bytes(buffer: Seq<u8>)
    requires
        buffer.len() < 4,
    ensures
        header_end(buffer) is None,
{
    lemma_blank_line();
    lemma_least_from_none(
        |i: int| matches_at(buffer, blank_line(), i),
        0,
        (buffer.len() + 1) as int,
    );
}

/// The header block ends where it first ended, whatever follows it.
pub proof fn lemma_header_end_stays(head: Seq<u8>, rest: Seq<u8>)
    requires
        header_end(head) is Some,
    ensures
        header_end(head + rest) == header_end(head),
{
    let whole = head + rest;
    let p = |i: int| matches_at(head, blank_line(), i);
    let q = |i: int| matches_at(whole, blank_line(), i);
    lemma_least_from(p, 0, (head.len() + 1) as int);
    let end = header_end(head)->0;
    assert(q(end)) by {
        assert forall|k: int| 0 <= k < blank_line().len() implies whole[end + k]
            == #[trigger] blank_line()[k] by {
            assert(whole[end + k] == head[end + k]);
        }
    }
    assert forall|j: int| 0 <= j < end implies !#[trigger] q(j) by {
        if q(j) {
            assert forall|k: int| 0 <= k < blank_line().len() implies head[j + k]
                == #[trigger] blank_line()[k] by {
                assert(whole[j + k] == head[j + k]);
            }
            assert(p(j));
        }
    }
    lemma_least_from_is(q, 0, (whole.len() + 1) as int, end);
}

/// What follows a head is the body, whatever it holds.
pub proof fn law_body_follows_head(head: Seq<u8>, body: Seq<u8>)
    requires
        is_head(head),
    ensures
        body_bytes(head + body) == body,
        parsed(head + body).body == lossy_text(body),
{
    lemma_header_end_stays(head, body);
    lemma_least_from(|i: int| matches_at(head, blank_line(), i), 0, (head.len() + 1) as int);
    assert((head + body).skip(head.len() as int) =~= body);
}

/// No part of a head short of the whole holds the empty line.
pub proof fn lemma_no_end_before_head(head: Seq<u8>, received: int)
    requires
        is_head(head),
        0 <= received < head.len(),
    ensures
        header_end(head.take(received)) is None,
{
    let part = head.take(received);
    let p = |i: int| matches_at(head, blank_line(), i);
    let q = |i: int| matches_at(part, blank_line(), i);
    lemma_least_from(p, 0, (head.len() + 1) as int);
    assert forall|j: int| 0 <= j < part.len() + 1 implies !#[trigger] q(j) by {
        if q(j) {
            assert forall|k: int| 0 <= k < blank_line().len() implies head[j + k]
                == #[trigger] blank_line()[k] by {
                assert(part[j + k] == head[j + k]);
            }
            assert(p(j));
        }
    }
    lemma_least_from_none(q, 0, (part.len() + 1) as int);
}

/// Of a line in which white space up to `a`, visible bytes up to `b`, white
/// space up to `c` and visible bytes up to `d` follow one another, and in
/// which the line ends or white space stands at `d`, the second token is
/// what stands from `c` to `d`.
proof fn lemma_second_token(line: Seq<u8>, a: int, b: int, c: int, d: int)
    requires
        0 <= a < b < c < d <= line.len(),
        forall|j: int| 0 <= j < a ==> is_space(#[trigger] line[j]),
        forall|j: int| a <= j < b ==> !is_space(#[trigger] line[j]),
        forall|j: int| b <= j < c ==> is_space(#[trigger] line[j]),
        forall|j: int| c <= j < d ==> !is_space(#[trigger] line[j]),
        d < line.len() ==> is_space(line[d]),
    ensures
        second_token(line) == line.subrange(c, d),
{
    let len = line.len() as int;
    let visible = |i: int| ByteClass::Visible.holds(line[i]);
    let space = |i: int| ByteClass::Space.holds(line[i]);
    assert(is_least(visible, 0, len, a)) by {
        assert(!is_space(line[a]));
        assert forall|j: int| 0 <= j < a implies !#[trigger] visible(j) by {
            assert(is_space(line[j]));
        }
    }
    lemma_least_from_is(visible, 0, len, a);
    assert(scan(line, 0, ByteClass::Visible) == a);
    assert(is_least(space, a, len, b)) by {
        assert(is_space(line[b]));
        assert forall|j: int| a <= j < b implies !#[trigger] space(j) by {
            assert(!is_space(line[j]));
        }
    }
    lemma_least_from_is(space, a, len, b);
    assert(scan(line, a, ByteClass::Space) == b);
    assert(is_least(visible, b, len, c)) by {
        assert(!is_space(line[c]));
        assert forall|j: int| b <= j < c implies !#[trigger] visible(j) by {
            assert(is_space(line[j]));
        }
    }
    lemma_least_from_is(visible, b, len, c);
    assert(scan(line, b, ByteClass::Visible) == c);
    assert forall|j: int| c <= j < d implies !#[trigger] space(j) by {
        assert(!is_space(line[j]));
    }
    if d < len {
        assert(is_least(space, c, len, d));
        lemma_least_from_is(space, c, len, d);
    } else {
        lemma_least_from_none(space, c, len);
    }
    assert(scan(line, c, ByteClass::Space) == d);
}

/// Whether `bytes` are white space within one line: white space, and no
/// line feed among it.
pub open spec fn is_gap(bytes: Seq<u8>) -> bool {
    forall|j: int|
        0 <= j < bytes.len() ==> is_space(#[trigger] bytes[j]) && bytes[j] != LINE_FEED
}

/// Whether `bytes` are a token: visible bytes, at least one.
pub open spec fn is_token(bytes: Seq<u8>) -> bool {
    bytes.len() > 0 && forall|j: int| 0 <= j < bytes.len() ==> !is_space(#[trigger] bytes[j])
}

/// The status line says the status code. A buffer whose first line holds a
/// first token of any kind, white space, and a number below 65536 in
/// decimal digits, with nothing or white space after them, has that number
/// as its status code. White space before the first token makes no
/// difference.
pub proof fn law_status_line_says_code(
    lead: Seq<u8>,
    version: Seq<u8>,
    gap: Seq<u8>,
    code: nat,
    rest: Seq<u8>,
)
    requires
        is_gap(lead),
        is_token(version),
        is_gap(gap),
        gap.len() > 0,
        code <= u16::MAX,
        rest.len() > 0 ==> is_space(rest[0]),
    ensures
        status_code(lead + version + gap + decimal_digits(code) + rest) == code,
{
    lemma_digits_denote(code);
    let digits = decimal_digits(code);
    let buffer = lead + version + gap + digits + rest;
    let a = lead.len() as int;
    let b = a + version.len();
    let c = b + gap.len();
    let d = c + digits.len();
    assert forall|j: int| 0 <= j < d implies #[trigger] buffer[j] == (if j < a {
        lead[j]
    } else if j < b {
        version[j - a]
    } else if j < c {
        gap[j - b]
    } else {
        digits[j - c]
    }) by {}
    assert forall|j: int| c <= j < d implies !is_space(#[trigger] buffer[j]) by {
        assert(is_digit(digits[j - c]));
    }
    assert forall|j: int| 0 <= j < d implies #[trigger] buffer[j] != 10 by {
        if a <= j < b {
            assert(!is_space(version[j - a]));
        } else if j >= c {
            assert(!is_space(buffer[j]));
        }
    }
    let feed = |i: int| ByteClass::LineEnd.holds(buffer[i]);
    lemma_least_from(feed, 0, buffer.len() as int);
    let cut = scan(buffer, 0, ByteClass::LineEnd);
    assert(d <= cut <= buffer.len()) by {
        match least_from(feed, 0, buffer.len() as int) {
            Some(i) => {
                assert(feed(i));
                if i < d {
                    assert(buffer[i] != 10);
                }
            },
            None => {},
        }
    }
    let line = buffer.take(cut);
    assert forall|j: int| 0 <= j < d implies #[trigger] line[j] == buffer[j] by {}
    assert forall|j: int| a <= j < b implies !is_space(#[trigger] line[j]) by {
        assert(!is_space(version[j - a]));
    }
    if d < line.len() {
        assert(line[d] == rest[0]);
    }
    lemma_second_token(line, a, b, c, d);
    assert(line.subrange(c, d) =~= digits);
    lemma_digits_need_no_trim(digits);
}

/// The name of the length line, byte by byte.
pub proof fn lemma_length_name()
    ensures
        length_name() == seq![
            99u8, 111u8, 110u8, 116u8, 101u8, 110u8, 116u8, 45u8, 108u8, 101u8, 110u8, 103u8,
            116u8, 104u8, 58u8,
        ],
{
    reveal_strlit("content-length:");
    let name = "content-length:";
    assert(name@ =~= seq![
        'c', 'o', 'n', 't', 'e', 'n', 't', '-', 'l', 'e', 'n', 'g', 't', 'h', ':',
    ]);
    assert(vstd::string::is_ascii(name));
    vstd::string::is_ascii_spec_bytes(name);
    assert(length_name() =~= seq![
        99u8, 111u8, 110u8, 116u8, 101u8, 110u8, 116u8, 45u8, 108u8, 101u8, 110u8, 103u8,
        116u8, 104u8, 58u8,
    ]);
}

/// Lines without a carriage return, followed by the empty line, are a head
/// of which they are the block.
pub proof fn lemma_empty_line_ends_head(lines: Seq<u8>)
    requires
        forall|j: int| 0 <= j < lines.len() ==> lines[j] != 13,
    ensures
        is_head(lines + blank_line()),
        block_of(lines + blank_line()) == lines,
{
    lemma_blank_line();
    let head = lines + blank_line();
    let end = lines.len() as int;
    let p = |i: int| matches_at(head, blank_line(), i);
    assert(p(end)) by {
        assert forall|k: int| 0 <= k < 4 implies head[end + k] == #[trigger] blank_line()[k] by {
            assert(head[end + k] == blank_line()[k]);
        }
    }
    assert forall|j: int| 0 <= j < end implies !#[trigger] p(j) by {
        if p(j) {
            assert(head[j + 0] == blank_line()[0]);
            assert(head[j] == lines[j]);
        }
    }
    lemma_least_from_is(p, 0, (head.len() + 1) as int, end);
    assert(block_of(head) =~= lines);
}

/// The length line with the digits of `n` declares `n`.
proof fn lemma_length_line_declares(n: nat)
    requires
        n <= usize::MAX,
    ensures
        first_line_with(length_name() + decimal_digits(n), length_name()) == Some(0int),
        length_value(length_name() + decimal_digits(n), 0) == Some(n),
{
    lemma_length_name();
    lemma_digits_denote(n);
    let name = length_name();
    let digits = decimal_digits(n);
    let block = name + digits;
    let end = block.len() as int;
    let q = |i: int| is_line_start(block, i) && matches_folded_at(block, name, i);
    assert(q(0)) by {
        assert forall|k: int| 0 <= k < 15 implies lower(block[0 + k]) == #[trigger] name[k] by {
            assert(block[k] == name[k]);
        }
    }
    lemma_least_from_is(q, 0, (block.len() + 1) as int, 0);
    let r = |i: int| ByteClass::FieldEnd.holds(block[i]);
    assert forall|j: int| 15 <= j < end implies !#[trigger] r(j) by {
        assert(block[j] == digits[j - 15]);
        assert(is_digit(digits[j - 15]));
    }
    lemma_least_from_none(r, 15, end);
    assert(scan(block, 15, ByteClass::FieldEnd) == end);
    assert(block.subrange(15, end) =~= digits);
    lemma_digits_need_no_trim(digits);
}

/// Digits have no white space to trim and no sign to drop.
proof fn lemma_digits_need_no_trim(digits: Seq<u8>)
    requires
        digits.len() > 0,
        all_digits(digits),
    ensures
        trimmed(digits) == digits,
        without_sign(digits) == digits,
{
    let v = |i: int| ByteClass::Visible.holds(digits[i]);
    assert(is_digit(digits[0]));
    assert(v(0));
    lemma_least_from_is(v, 0, digits.len() as int, 0);
    assert(digits.skip(0) =~= digits);
    assert(is_digit(digits.last()));
}

/// The plainest head that declares `n` body bytes: the length line and the
/// empty line.
pub open spec fn plain_head(n: nat) -> Seq<u8> {
    length_name() + decimal_digits(n) + blank_line()
}

/// Every length that fits the machine can be declared: the plainest head
/// for `n` is a head, and it declares `n`.
pub proof fn lemma_plain_head_declares(n: nat)
    requires
        n <= usize::MAX,
    ensures
        is_head(plain_head(n)),
        declares_length(plain_head(n), n),
{
    let lines = length_name() + decimal_digits(n);
    assert forall|j: int| 0 <= j < lines.len() implies lines[j] != 13 by {
        lemma_length_name();
        lemma_digits_denote(n);
        if j >= 15 {
            assert(is_digit(decimal_digits(n)[j - 15]));
        }
    }
    lemma_empty_line_ends_head(lines);
    lemma_length_line_declares(n);
}

/// With a head that declares `n` body bytes, the bytes received so far of
/// the head and a body after it are a whole response exactly when `n` body
/// bytes are among them: never before, and from then on. Where the cuts
/// between reads fall makes no difference, since what has been received is
/// all that counts.
pub proof fn law_declared_length_decides(head: Seq<u8>, body: Seq<u8>, n: nat, received: int)
    requires
        is_head(head),
        declares_length(head, n),
        0 <= received <= head.len() + body.len(),
    ensures
        response_complete((head + body).take(received)) <==> received - head.len() >= n,
{
    let so_far = (head + body).take(received);
    if received < head.len() {
        assert(so_far =~= head.take(received));
        lemma_no_end_before_head(head, received);
    } else {
        let rest = body.take(received - head.len());
        assert(so_far =~= head + rest);
        lemma_header_end_stays(head, rest);
        let end = head.len() - blank_line().len();
        lemma_least_from(|i: int| matches_at(head, blank_line(), i), 0, (head.len() + 1) as int);
        assert(so_far.take(end) =~= block_of(head));
    }
}

/// For every length `n` that fits the machine there is a response that
/// declares it, and of such a response with any body the bytes received so
/// far are whole exactly when `n` body bytes are among them.
pub proof fn law_every_length_decides(n: nat, body: Seq<u8>, received: int)
    requires
        n <= usize::MAX,
        0 <= received <= plain_head(n).len() + body.len(),
    ensures
        response_complete((plain_head(n) + body).take(received)) <==> received - plain_head(
            n,
        ).len() >= n,
{
    lemma_plain_head_declares(n);
    law_declared_length_decides(plain_head(n), body, n, received);
}

/// The plainest head that announces chunks: the header that does so and the
/// empty line.
pub open spec fn plain_chunked_head() -> Seq<u8> {
    chunked_header() + blank_line()
}

/// The header that announces chunks, byte by byte.
pub proof fn lemma_chunked_header()
    ensures
        chunked_header() == seq![
            84u8, 114u8, 97u8, 110u8, 115u8, 102u8, 101u8, 114u8, 45u8, 69u8, 110u8, 99u8, 111u8,
            100u8, 105u8, 110u8, 103u8, 58u8, 32u8, 99u8, 104u8, 117u8, 110u8, 107u8, 101u8,
            100u8,
        ],
{
    reveal_strlit("Transfer-Encoding: chunked");
    let text = "Transfer-Encoding: chunked";
    assert(text@ =~= seq![
        'T', 'r', 'a', 'n', 's', 'f', 'e', 'r', '-', 'E', 'n', 'c', 'o', 'd', 'i', 'n', 'g', ':',
        ' ', 'c', 'h', 'u', 'n', 'k', 'e', 'd',
    ]);
    assert(vstd::string::is_ascii(text));
    vstd::string::is_ascii_spec_bytes(text);
    assert(chunked_header() =~= seq![
        84u8, 114u8, 97u8, 110u8, 115u8, 102u8, 101u8, 114u8, 45u8, 69u8, 110u8, 99u8, 111u8,
        100u8, 105u8, 110u8, 103u8, 58u8, 32u8, 99u8, 104u8, 117u8, 110u8, 107u8, 101u8, 100u8,
    ]);
}

/// A head can announce chunks: the plainest one that does is a head, has no
/// length line, and announces chunks.
pub proof fn lemma_plain_chunked_head()
    ensures
        is_head(plain_chunked_head()),
        announces_chunks(plain_chunked_head()),
{
    lemma_chunked_header();
    let block = chunked_header();
    lemma_empty_line_ends_head(block);
    // No line of the block is a length line.
    let q = |i: int| is_line_start(block, i) && matches_folded_at(block, length_name(), i);
    assert forall|j: int| 0 <= j < block.len() + 1 implies !#[trigger] q(j) by {
        lemma_length_name();
        if q(j) && j == 0 {
            assert(lower(block[0int + 0]) == length_name()[0]);
        }
    }
    lemma_least_from_none(q, 0, (block.len() + 1) as int);
    // The header stands at the start of the block.
    let r = |i: int| matches_at(block, chunked_header(), i);
    assert(r(0));
    lemma_least_from_is(r, 0, (block.len() + 1) as int, 0);
}

/// With a head that has no length line and announces chunks, the bytes
/// received so far are a whole response exactly when the head is among them
/// and they end with the last chunk, wherever the cuts between reads fall.
pub proof fn law_last_chunk_decides(head: Seq<u8>, body: Seq<u8>, received: int)
    requires
        is_head(head),
        announces_chunks(head),
        0 <= received <= head.len() + body.len(),
    ensures
        response_complete((head + body).take(received)) <==> received >= head.len() && ends_with(
            (head + body).take(received),
            last_chunk(),
        ),
{
    let so_far = (head + body).take(received);
    if received < head.len() {
        assert(so_far =~= head.take(received));
        lemma_no_end_before_head(head, received);
    } else {
        let rest = body.take(received - head.len());
        assert(so_far =~= head + rest);
        lemma_header_end_stays(head, rest);
        let end = head.len() - blank_line().len();
        lemma_least_from(|i: int| matches_at(head, blank_line(), i), 0, (head.len() + 1) as int);
        assert(so_far.take(end) =~= block_of(head));
    }
}

/// There is a response that announces chunks, and of such a response with
/// any body the bytes received so far are whole exactly when the head is
/// among them and they end with the last chunk.
pub proof fn law_chunks_decide(body: Seq<u8>, received: int)
    requires
        0 <= received <= plain_chunked_head().len() + body.len(),
    ensures
        response_complete((plain_chunked_head() + body).take(received)) <==> received
            >= plain_chunked_head().len() && ends_with(
            (plain_chunked_head() + body).take(received),
            last_chunk(),
        ),
{
    lemma_plain_chunked_head();
    law_last_chunk_decides(plain_chunked_head(), body, received);
}

/// Calls `String::from_utf8_lossy` and takes the result as a `String`.
/// Valid UTF-8 comes out as the text it encodes; for anything else the
/// result is what that function makes of the bytes, which depends on them
/// alone.
#[verifier::external_body]
fn text_of(bytes: &[u8]) -> (r: String)
    ensures
        valid_utf8(bytes@) ==> r@ == decode_utf8(bytes@),
        !valid_utf8(bytes@) ==> r@ == repaired_text(bytes@),
{
    String::from_utf8_lossy(bytes).into_owned()
}

/// Finds the end of the header block.
pub fn find_header_end(buffer: &[u8]) -> (r: Option<usize>)
    ensures
        match r {
            Some(end) => header_end(buffer@) == Some(end as int) && end + blank_line().len()
                <= buffer.len(),
            None => header_end(buffer@) is None,
        },
{
    let r = find(buffer, "\r\n\r\n".as_bytes());
    proof {
        lemma_least_from(
            |i: int| matches_at(buffer@, blank_line(), i),
            0,
            (buffer@.len() + 1) as int,
        );
    }
    r
}

/// Reads the body length that the header line starting at `line` declares.
fn read_length_value(block: &[u8], line: usize) -> (r: Option<usize>)
    requires
        line + length_name().len() <= block.len(),
    ensures
        match r {
            Some(n) => length_value(block@, line as int) == Some(n as nat),
            None => length_value(block@, line as int) is None,
        },
{
    let name = "content-length:".as_bytes();
    let from = line + name.len();
    let to = scan_for(block, from, ByteClass::FieldEnd);
    let value = trim(slice_subrange(block, from, to));
    match read_unsigned(value, usize::MAX as u64) {
        Some(n) => Some(n as usize),
        None => None,
    }
}

/// Decides whether `buffer` holds a whole response.
pub fn is_complete(buffer: &[u8]) -> (r: bool)
    ensures
        r == response_complete(buffer@),
{
    match find_header_end(buffer) {
        None => false,
        Some(end) => {
            let block = slice_subrange(buffer, 0, end);
            assert(block@ == buffer@.take(end as int));
            match find_line_with(block, "content-length:".as_bytes()) {
                Some(line) => {
                    proof {
                        lemma_least_from(
                            |i: int|
                                is_line_start(block@, i) && matches_folded_at(
                                    block@,
                                    length_name(),
                                    i,
                                ),
                            0,
                            (block@.len() + 1) as int,
                        );
                    }
                    let gap = "\r\n\r\n".as_bytes();
                    match read_length_value(block, line) {
                        Some(n) => buffer.len() - (end + gap.len()) >= n,
                        None => false,
                    }
                },
                None => {
                    find(block, "Transfer-Encoding: chunked".as_bytes()).is_some()
                        && finishes_with(buffer, "\r\n0\r\n\r\n".as_bytes())
                },
            }
        },
    }
}

/// Reads the status code out of `buffer`.
pub fn read_status_code(buffer: &[u8]) -> (r: u16)
    ensures
        r == status_code(buffer@),
{
    let line = slice_subrange(buffer, 0, scan_for(buffer, 0, ByteClass::LineEnd));
    let first = scan_for(line, 0, ByteClass::Visible);
    let gap = scan_for(line, first, ByteClass::Space);
    let second = scan_for(line, gap, ByteClass::Visible);
    let end = scan_for(line, second, ByteClass::Space);
    match read_unsigned(slice_subrange(line, second, end), 65535) {
        Some(n) => n as u16,
        None => 0,
    }
}

/// Reads `buffer` as a response: its status code, and its body as text.
pub fn parse_response(buffer: &[u8]) -> (r: HttpResponse)
    ensures
        r@ == parsed(buffer@),
{
    let status_code = read_status_code(buffer);
    let gap = "\r\n\r\n".as_bytes();
    let body = match find_header_end(buffer) {
        Some(end) => text_of(slice_subrange(buffer, end + gap.len(), buffer.len())),
        None => {
            let rest = slice_subrange(buffer, 0, 0);
            assert(rest@ =~= Seq::<u8>::empty());
            text_of(rest)
        },
    };
    HttpResponse { status_code, body, error: None }
}

/// The bytes of a response as they come in, read after read.
pub struct ResponseAssembler {
    buffer: Vec<u8>,
}

impl View for ResponseAssembler {
    type V = Seq<u8>;

    closed spec fn view(&self) -> Seq<u8> {
        self.buffer@
    }
}

impl ResponseAssembler {
    /// An assembler that has received nothing.
    pub fn new() -> (r: ResponseAssembler)
        ensures
            r@ == Seq::<u8>::empty(),
    {
        ResponseAssembler { buffer: Vec::new() }
    }

    /// Takes in the bytes of one read and says how far the response has
    /// come with them.
    pub fn feed(&mut self, chunk: &[u8]) -> (r: AssemblerState)
        ensures
            final(self)@ == old(self)@ + chunk@,
            r == state_of(final(self)@),
    {
        self.buffer.extend_from_slice(chunk);
        self.state()
    }

    /// How far the response has come.
    pub fn state(&self) -> (r: AssemblerState)
        ensures
            r == state_of(self@),
    {
        if find_header_end(self.buffer.as_slice()).is_none() {
            AssemblerState::SeekingHeaders
        } else if is_complete(self.buffer.as_slice()) {
            AssemblerState::Complete
        } else {
            AssemblerState::HeadersFound
        }
    }

    /// Whether nothing has been received.
    pub fn is_empty(&self) -> (r: bool)
        ensures
            r == (self@.len() == 0),
    {
        self.buffer.len() == 0
    }

    /// Whether the header block has ended.
    pub fn has_headers(&self) -> (r: bool)
        ensures
            r == header_end(self@) is Some,
    {
        find_header_end(self.buffer.as_slice()).is_some()
    }

    /// The bytes received.
    pub fn bytes(&self) -> (r: &[u8])
        ensures
            r@ == self@,
    {
        self.buffer.as_slice()
    }

    /// Reads what has been received as a response.
    pub fn response(&self) -> (r: HttpResponse)
        ensures
            r@ == parsed(self@),
    {
        parse_response(self.buffer.as_slice())
    }
}

} // verus!
