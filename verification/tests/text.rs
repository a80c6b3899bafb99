use tor_bridge::text::{char_is_white, trim};

#[test]
fn white_space_is_what_the_standard_library_calls_so() {
    for n in 0u32..0x11_0000 {
        if let Some(c) = char::from_u32(n) {
            assert_eq!(char_is_white(c), c.is_whitespace(), "U+{:04X}", n);
        }
    }
}

#[test]
fn trim_strips_both_ends() {
    assert_eq!(trim("  127.0.0.1:9051 \n"), "127.0.0.1:9051");
    assert_eq!(trim("127.0.0.1:9051"), "127.0.0.1:9051");
    assert_eq!(trim("\u{a0}a b\u{3000}"), "a b");
    assert_eq!(trim("\t\r\n "), "");
    assert_eq!(trim(""), "");
    assert_eq!(trim(" \u{e9} "), "\u{e9}");
}

#[test]
fn trim_agrees_with_the_standard_library() {
    for s in ["", " ", "a", " a", "a ", " a b ", "\u{2003}x\u{2003}", "\n\u{1f600}\n", "x\u{200b}"] {
        assert_eq!(trim(s), s.trim(), "text {:?}", s);
    }
}
