use packet_sources::text::{decimal_string, wide_string};

#[test]
fn decimal_numerals() {
    for n in [0u64, 1, 9, 10, 99, 100, 1234567890, u32::MAX as u64, u64::MAX] {
        assert_eq!(decimal_string(n), format!("{}", n));
    }
}

#[test]
fn wide_strings_agree_with_std() {
    for s in ["", "a", "\\\\.\\pipe\\x", "\u{e9}\u{d7ff}\u{e000}\u{ffff}", "a\u{10000}\u{1f600}\u{10ffff}"] {
        let mut expected: Vec<u16> = s.encode_utf16().collect();
        expected.push(0);
        assert_eq!(wide_string(s), expected);
    }
}

#[test]
fn surrogate_pair() {
    assert_eq!(wide_string("\u{1f600}"), vec![0xD83D, 0xDE00, 0]);
}
