use tor_bridge::http_client::HttpResponse;
use tor_bridge::response::{
    find_header_end, is_complete, parse_response, read_status_code, AssemblerState,
    ResponseAssembler,
};

const HELLO: &[u8] = b"HTTP/1.1 200 OK\r\nContent-Length: 5\r\n\r\nhello";

const HELLO_HEAD: usize = 38;

#[test]
fn header_end_is_the_first_empty_line() {
    assert_eq!(find_header_end(HELLO), Some(HELLO_HEAD - 4));
    assert_eq!(find_header_end(b"a\r\n\r\nb\r\n\r\n"), Some(1));
    assert_eq!(find_header_end(b"\r\n\r\n"), Some(0));
    assert_eq!(find_header_end(b"a\r\n\r"), None);
    assert_eq!(find_header_end(b"a\n\nb"), None);
    assert_eq!(find_header_end(b""), None);
}

#[test]
fn declared_length_decides_for_every_prefix() {
    for received in 0..=HELLO.len() {
        assert_eq!(
            is_complete(&HELLO[..received]),
            received >= HELLO_HEAD + 5,
            "received {}",
            received
        );
    }
}

#[test]
fn declared_length_of_zero_is_whole_with_the_head() {
    let text = b"HTTP/1.1 204 No Content\r\nContent-Length: 0\r\n\r\n";
    for received in 0..=text.len() {
        assert_eq!(is_complete(&text[..received]), received == text.len());
    }
}

#[test]
fn more_than_the_declared_length_is_whole_too() {
    assert!(is_complete(b"HTTP/1.1 200 OK\r\nContent-Length: 2\r\n\r\nhello"));
}

#[test]
fn length_line_is_found_in_any_case() {
    assert!(is_complete(b"HTTP/1.1 200 OK\r\nCONTENT-LENGTH: 2\r\n\r\nhi"));
    assert!(is_complete(b"HTTP/1.1 200 OK\r\ncontent-length:2\r\n\r\nhi"));
    assert!(is_complete(b"HTTP/1.1 200 OK\r\nContent-Length:   +2  \r\n\r\nhi"));
    assert!(!is_complete(b"HTTP/1.1 200 OK\r\nContent-Length: 3\r\n\r\nhi"));
}

#[test]
fn length_value_ends_at_the_next_colon() {
    assert!(is_complete(b"HTTP/1.1 200 OK\r\nContent-Length: 2:99\r\n\r\nhi"));
    assert!(!is_complete(b"HTTP/1.1 200 OK\r\nContent-Length: :2\r\n\r\nhi"));
}

#[test]
fn unreadable_length_is_never_whole() {
    assert!(!is_complete(b"HTTP/1.1 200 OK\r\nContent-Length: abc\r\n\r\nhello"));
    assert!(!is_complete(b"HTTP/1.1 200 OK\r\nContent-Length: \r\n\r\nhello"));
    assert!(!is_complete(b"HTTP/1.1 200 OK\r\nContent-Length: -1\r\n\r\nhello"));
    assert!(!is_complete(
        b"HTTP/1.1 200 OK\r\nContent-Length: x\r\nTransfer-Encoding: chunked\r\n\r\n0\r\n\r\n"
    ));
}

#[test]
fn length_line_in_the_body_does_not_count() {
    assert!(!is_complete(b"HTTP/1.1 200 OK\r\n\r\nContent-Length: 0\r\n"));
}

#[test]
fn first_length_line_counts() {
    assert!(is_complete(
        b"HTTP/1.1 200 OK\r\nContent-Length: 2\r\nContent-Length: 9\r\n\r\nhi"
    ));
    assert!(!is_complete(
        b"HTTP/1.1 200 OK\r\nContent-Length: 9\r\nContent-Length: 2\r\n\r\nhi"
    ));
}

#[test]
fn last_chunk_decides_for_every_prefix() {
    let text: &[u8] =
        b"HTTP/1.1 200 OK\r\nTransfer-Encoding: chunked\r\n\r\n5\r\nhello\r\n0\r\n\r\n";
    for received in 0..=text.len() {
        assert_eq!(is_complete(&text[..received]), received == text.len(), "received {}", received);
    }
}

#[test]
fn chunked_with_an_empty_body_is_whole_at_the_last_chunk() {
    let text: &[u8] = b"HTTP/1.1 200 OK\r\nTransfer-Encoding: chunked\r\n\r\n0\r\n\r\n";
    for received in 0..=text.len() {
        assert_eq!(is_complete(&text[..received]), received == text.len());
    }
}

#[test]
fn chunked_header_is_matched_as_written() {
    assert!(!is_complete(b"HTTP/1.1 200 OK\r\ntransfer-encoding: chunked\r\n\r\n0\r\n\r\n"));
    assert!(!is_complete(b"HTTP/1.1 200 OK\r\n\r\nTransfer-Encoding: chunked\r\n0\r\n\r\n"));
}

#[test]
fn neither_length_nor_chunks_is_never_whole() {
    let text: &[u8] = b"HTTP/1.1 200 OK\r\nServer: x\r\n\r\nhello\r\n0\r\n\r\n";
    for received in 0..=text.len() {
        assert!(!is_complete(&text[..received]));
    }
}

#[test]
fn status_code_is_the_second_token_of_the_first_line() {
    assert_eq!(read_status_code(b"HTTP/1.1 200 OK\r\n\r\n"), 200);
    assert_eq!(read_status_code(b"HTTP/1.0 404 Not Found\r\n\r\n"), 404);
    assert_eq!(read_status_code(b"HTTP/1.1 204"), 204);
    assert_eq!(read_status_code(b"HTTP/1.1   301\tMoved\r\n"), 301);
    assert_eq!(read_status_code(b"HTTP/1.1 +200 OK\r\n"), 200);
    assert_eq!(read_status_code(b"HTTP/1.1 65535 X\r\n"), 65535);
}

#[test]
fn status_code_needs_no_version() {
    assert_eq!(read_status_code(b"HTTP/2 200 OK\r\n"), 200);
    assert_eq!(read_status_code(b"http/1.1 200 OK\r\n"), 200);
    assert_eq!(read_status_code(b" HTTP/1.1 200 OK\r\n"), 200);
    assert_eq!(read_status_code(b"HTTP/2 204 No Content\r\n\r\n"), 204);
    assert_eq!(read_status_code(b"ICY 200 OK\r\n"), 200);
    assert_eq!(read_status_code(b"x 7"), 7);
    assert_eq!(read_status_code(b"\t \x0bfirst\x0c\r 404\r\n"), 404);
}

#[test]
fn status_code_defaults_to_zero() {
    assert_eq!(read_status_code(b""), 0);
    assert_eq!(read_status_code(b"   "), 0);
    assert_eq!(read_status_code(b"hello"), 0);
    assert_eq!(read_status_code(b"200"), 0);
    assert_eq!(read_status_code(b"HTTP/1.1 "), 0);
    assert_eq!(read_status_code(b"HTTP/1.1 \r\n200 OK"), 0);
    assert_eq!(read_status_code(b"\nHTTP/1.1 200 OK\r\n"), 0);
    assert_eq!(read_status_code(b"HTTP/1.1 abc OK\r\n"), 0);
    assert_eq!(read_status_code(b"HTTP/1.1 65536 X\r\n"), 0);
    assert_eq!(read_status_code(b"HTTP/1.1 2x0 X\r\n"), 0);
    assert_eq!(read_status_code(b"HTTP/1.1 -1 X\r\n"), 0);
}

#[test]
fn status_code_agrees_with_splitting_the_first_line() {
    let samples: [&str; 10] = [
        "HTTP/1.1 200 OK\r\nX: 1\r\n\r\n",
        "HTTP/2 204 No Content\r\n\r\n",
        "HTTP/1.1 abc",
        "one",
        "",
        "  a  +12  b",
        "a\t65535\n",
        "a 65536",
        "\r\n 1 2",
        "a\r7",
    ];
    for s in samples {
        let line = s.lines().next().unwrap_or("");
        let parts: Vec<&str> = line.split_whitespace().collect();
        let expected = if parts.len() >= 2 { parts[1].parse::<u16>().unwrap_or(0) } else { 0 };
        assert_eq!(read_status_code(s.as_bytes()), expected, "text {:?}", s);
    }
}

#[test]
fn parse_takes_the_body_after_the_first_empty_line() {
    assert_eq!(
        parse_response(HELLO),
        HttpResponse { status_code: 200, body: "hello".to_string(), error: None }
    );
    assert_eq!(
        parse_response(b"HTTP/1.1 200 OK\r\n\r\na\r\n\r\nb"),
        HttpResponse { status_code: 200, body: "a\r\n\r\nb".to_string(), error: None }
    );
    assert_eq!(
        parse_response(b"HTTP/1.1 204 No Content\r\n\r\n"),
        HttpResponse { status_code: 204, body: String::new(), error: None }
    );
}

#[test]
fn parse_without_an_empty_line_has_no_body() {
    assert_eq!(
        parse_response(b"HTTP/1.1 200 OK\r\nServer: x"),
        HttpResponse { status_code: 200, body: String::new(), error: None }
    );
    assert_eq!(
        parse_response(b""),
        HttpResponse { status_code: 0, body: String::new(), error: None }
    );
}

#[test]
fn parse_replaces_what_is_no_text() {
    let r = parse_response(b"HTTP/1.1 200 OK\r\n\r\na\xffb\xc3");
    assert_eq!(r.body, "a\u{fffd}b\u{fffd}");
    let r = parse_response("HTTP/1.1 200 OK\r\n\r\ngr\u{fc}\u{df}e \u{1f600}".as_bytes());
    assert_eq!(r.body, "gr\u{fc}\u{df}e \u{1f600}");
}

#[test]
fn parse_agrees_with_parsing_the_repaired_text() {
    let raw: &[u8] = b"HTTP/1.1 200 OK\r\nX: \xff\xfe\r\n\r\nbody \xe2\x82 end";
    let text = String::from_utf8_lossy(raw).to_string();
    let at = text.find("\r\n\r\n").unwrap();
    assert_eq!(parse_response(raw).body, text[at + 4..]);
}

#[test]
fn assembler_reports_each_state() {
    let mut a = ResponseAssembler::new();
    assert!(a.is_empty());
    assert!(!a.has_headers());
    assert_eq!(a.state(), AssemblerState::SeekingHeaders);
    assert_eq!(a.feed(b"HTTP/1.1 200 OK\r\nContent-Le"), AssemblerState::SeekingHeaders);
    assert!(!a.is_empty());
    assert_eq!(a.feed(b"ngth: 5\r\n\r"), AssemblerState::SeekingHeaders);
    assert_eq!(a.feed(b"\nhe"), AssemblerState::HeadersFound);
    assert!(a.has_headers());
    assert_eq!(a.feed(b""), AssemblerState::HeadersFound);
    assert_eq!(a.feed(b"ll"), AssemblerState::HeadersFound);
    assert_eq!(a.feed(b"o"), AssemblerState::Complete);
    assert_eq!(a.state(), AssemblerState::Complete);
    assert_eq!(a.bytes(), HELLO);
    assert_eq!(
        a.response(),
        HttpResponse { status_code: 200, body: "hello".to_string(), error: None }
    );
}

#[test]
fn assembler_is_whole_at_the_same_byte_for_every_cut() {
    for first in 0..=HELLO.len() {
        for second in first..=HELLO.len() {
            let mut a = ResponseAssembler::new();
            let s1 = a.feed(&HELLO[..first]);
            assert_eq!(s1 == AssemblerState::Complete, first == HELLO.len());
            let s2 = a.feed(&HELLO[first..second]);
            assert_eq!(s2 == AssemblerState::Complete, second == HELLO.len());
            let s3 = a.feed(&HELLO[second..]);
            assert_eq!(s3, AssemblerState::Complete);
            assert_eq!(a.bytes(), HELLO);
        }
    }
}

#[test]
fn assembler_sees_the_last_chunk_across_reads() {
    let text: &[u8] =
        b"HTTP/1.1 200 OK\r\nTransfer-Encoding: chunked\r\n\r\n5\r\nhello\r\n0\r\n\r\n";
    for cut in 0..text.len() {
        let mut a = ResponseAssembler::new();
        assert_ne!(a.feed(&text[..cut]), AssemblerState::Complete);
        assert_eq!(a.feed(&text[cut..]), AssemblerState::Complete);
    }
}

#[test]
fn plainest_head_declares_its_length() {
    for n in [0usize, 1, 5, 10, 123] {
        let mut text = format!("content-length:{}\r\n\r\n", n).into_bytes();
        let head = text.len();
        text.extend(std::iter::repeat(b'x').take(n + 3));
        for received in 0..=text.len() {
            assert_eq!(is_complete(&text[..received]), received >= head + n, "n {}", n);
        }
    }
}

#[test]
fn plainest_chunked_head_announces_chunks() {
    let text: &[u8] = b"Transfer-Encoding: chunked\r\n\r\n1\r\nx\r\n0\r\n\r\n";
    for received in 0..=text.len() {
        assert_eq!(is_complete(&text[..received]), received == text.len());
    }
}

#[test]
fn status_line_says_the_code_for_every_code() {
    for code in [0u32, 1, 99, 100, 200, 404, 599, 999, 1000, 65535] {
        for version in ["HTTP/1.1", "HTTP/1.0", "HTTP/2", " \tany"] {
            for rest in ["", " OK\r\n\r\n", "\r\n\r\n", "\n", "\tx"] {
                let text = format!("{} {}{}", version, code, rest);
                assert_eq!(read_status_code(text.as_bytes()) as u32, code, "text {:?}", text);
            }
        }
    }
}
