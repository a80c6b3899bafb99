use tor_bridge::decimal::{read_unsigned, write_unsigned};

#[test]
fn read_unsigned_reads_digits() {
    assert_eq!(read_unsigned(b"0", u64::MAX), Some(0));
    assert_eq!(read_unsigned(b"5", u64::MAX), Some(5));
    assert_eq!(read_unsigned(b"200", 65535), Some(200));
    assert_eq!(read_unsigned(b"007", 65535), Some(7));
    assert_eq!(read_unsigned(b"65535", 65535), Some(65535));
}

#[test]
fn read_unsigned_takes_one_plus_sign() {
    assert_eq!(read_unsigned(b"+5", 100), Some(5));
    assert_eq!(read_unsigned(b"++5", 100), None);
    assert_eq!(read_unsigned(b"+", 100), None);
    assert_eq!(read_unsigned(b"-5", 100), None);
}

#[test]
fn read_unsigned_refuses_what_is_no_number() {
    assert_eq!(read_unsigned(b"", 100), None);
    assert_eq!(read_unsigned(b" 5", 100), None);
    assert_eq!(read_unsigned(b"5 ", 100), None);
    assert_eq!(read_unsigned(b"5a", 100), None);
    assert_eq!(read_unsigned(b"abc", 100), None);
    assert_eq!(read_unsigned(b"1.5", 100), None);
}

#[test]
fn read_unsigned_refuses_what_is_too_large() {
    assert_eq!(read_unsigned(b"65536", 65535), None);
    assert_eq!(read_unsigned(b"70000", 65535), None);
    assert_eq!(read_unsigned(b"101", 100), None);
    assert_eq!(read_unsigned(b"100", 100), Some(100));
    assert_eq!(read_unsigned(b"18446744073709551615", u64::MAX), Some(u64::MAX));
    assert_eq!(read_unsigned(b"18446744073709551616", u64::MAX), None);
    assert_eq!(read_unsigned(b"99999999999999999999999999", u64::MAX), None);
    assert_eq!(read_unsigned(b"1", 0), None);
    assert_eq!(read_unsigned(b"0", 0), Some(0));
}

#[test]
fn read_unsigned_agrees_with_the_standard_parser() {
    let samples: [&str; 12] =
        ["0", "1", "+1", "-1", "", "+", "12a", "65535", "65536", "000", " 1", "9999999999"];
    for s in samples {
        assert_eq!(
            read_unsigned(s.as_bytes(), 65535),
            s.parse::<u16>().ok().map(|n| n as u64),
            "text {:?}",
            s
        );
    }
}

#[test]
fn write_unsigned_writes_decimal() {
    assert_eq!(write_unsigned(0), "0");
    assert_eq!(write_unsigned(7), "7");
    assert_eq!(write_unsigned(10), "10");
    assert_eq!(write_unsigned(443), "443");
    assert_eq!(write_unsigned(30000), "30000");
    assert_eq!(write_unsigned(u64::MAX), "18446744073709551615");
}

#[test]
fn write_then_read_gives_the_number_back() {
    for n in [0u64, 1, 9, 10, 99, 100, 4096, 65535, 1 << 40, u64::MAX] {
        let text = write_unsigned(n);
        assert_eq!(text, n.to_string());
        assert_eq!(read_unsigned(text.as_bytes(), u64::MAX), Some(n));
    }
}
