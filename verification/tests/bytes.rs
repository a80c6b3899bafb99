use tor_bridge::bytes::{
    byte_is_space, find, find_line_with, finishes_with, has_at, has_folded_at,
    scan_for, to_lower, trim, ByteClass,
};

#[test]
fn find_gives_the_first_occurrence() {
    assert_eq!(find(b"abcabc", b"bc"), Some(1));
    assert_eq!(find(b"abcabc", b"abc"), Some(0));
    assert_eq!(find(b"abcabc", b"cab"), Some(2));
    assert_eq!(find(b"abcabc", b"x"), None);
    assert_eq!(find(b"ab", b"abc"), None);
}

#[test]
fn find_of_nothing_is_at_the_start() {
    assert_eq!(find(b"abc", b""), Some(0));
    assert_eq!(find(b"", b""), Some(0));
    assert_eq!(find(b"", b"a"), None);
}

#[test]
fn has_at_checks_bounds() {
    assert!(has_at(b"hello", b"llo", 2));
    assert!(!has_at(b"hello", b"llo", 3));
    assert!(!has_at(b"hello", b"llo", 100));
    assert!(!has_at(b"hello", b"llo", usize::MAX));
    assert!(has_at(b"hello", b"", 5));
    assert!(!has_at(b"hello", b"", 6));
}

#[test]
fn suffix_is_matched_at_the_end() {
    assert!(finishes_with(b"abc\r\n0\r\n\r\n", b"\r\n0\r\n\r\n"));
    assert!(!finishes_with(b"0\r\n\r\n", b"\r\n0\r\n\r\n"));
    assert!(finishes_with(b"abc", b""));
}

#[test]
fn folding_covers_ascii_letters_only() {
    assert_eq!(to_lower(b'A'), b'a');
    assert_eq!(to_lower(b'Z'), b'z');
    assert_eq!(to_lower(b'a'), b'a');
    assert_eq!(to_lower(b'@'), b'@');
    assert_eq!(to_lower(b'['), b'[');
    assert_eq!(to_lower(0xc9), 0xc9);
    assert!(has_folded_at(b"Content-LENGTH: 1", b"content-length:", 0));
    assert!(!has_folded_at(b"Content-Lengt: 1", b"content-length:", 0));
}

#[test]
fn lines_start_after_line_feeds() {
    let text = b"HTTP/1.1 200 OK\r\nX-Content-Length: 9\r\nContent-Length: 5";
    assert_eq!(find_line_with(text, b"content-length:"), Some(38));
    assert_eq!(find_line_with(b"content-length: 1", b"content-length:"), Some(0));
    assert_eq!(find_line_with(b"a content-length: 1", b"content-length:"), None);
    assert_eq!(find_line_with(b"a\rcontent-length: 1", b"content-length:"), None);
    assert_eq!(find_line_with(b"a\ncontent-length: 1", b"content-length:"), Some(2));
}

#[test]
fn white_space_is_blank_and_tab_to_carriage_return() {
    for b in 0u8..=255 {
        let expected = b == b' ' || (9..=13).contains(&b);
        assert_eq!(byte_is_space(b), expected, "byte {}", b);
    }
}

#[test]
fn scan_stops_at_the_class_or_the_end() {
    let text = b"  ab \tcd:e\nf";
    assert_eq!(scan_for(text, 0, ByteClass::Visible), 2);
    assert_eq!(scan_for(text, 2, ByteClass::Space), 4);
    assert_eq!(scan_for(text, 4, ByteClass::Visible), 6);
    assert_eq!(scan_for(text, 0, ByteClass::FieldEnd), 8);
    assert_eq!(scan_for(text, 9, ByteClass::FieldEnd), 10);
    assert_eq!(scan_for(text, 0, ByteClass::LineEnd), 10);
    assert_eq!(scan_for(text, 11, ByteClass::LineEnd), 12);
    assert_eq!(scan_for(text, 12, ByteClass::LineEnd), 12);
    assert_eq!(scan_for(text, 40, ByteClass::LineEnd), 40);
}

#[test]
fn trim_strips_white_bytes_at_both_ends() {
    assert_eq!(trim(b"  5 \r"), b"5");
    assert_eq!(trim(b"5"), b"5");
    assert_eq!(trim(b" a b "), b"a b");
    assert_eq!(trim(b" \t\r\n"), b"");
    assert_eq!(trim(b""), b"");
    assert_eq!(trim(b"\x0b\x0cx\x0b"), b"x");
}
