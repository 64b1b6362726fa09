use pyrite_bot::text::{after_prefix, decimal, read_u64, same_text};

#[test]
fn read_u64_reads_digits() {
    assert_eq!(read_u64("0"), Some(0));
    assert_eq!(read_u64("7"), Some(7));
    assert_eq!(read_u64("123456789"), Some(123456789));
    assert_eq!(read_u64("807705107852558386"), Some(807705107852558386));
    assert_eq!(read_u64("007"), Some(7));
    assert_eq!(read_u64("+5"), Some(5));
    assert_eq!(read_u64("+0"), Some(0));
}

#[test]
fn read_u64_at_the_limit() {
    assert_eq!(read_u64("18446744073709551615"), Some(u64::MAX));
    assert_eq!(read_u64("+18446744073709551615"), Some(u64::MAX));
    assert_eq!(read_u64("00018446744073709551615"), Some(u64::MAX));
    assert_eq!(read_u64("18446744073709551616"), None);
    assert_eq!(read_u64("18446744073709551620"), None);
    assert_eq!(read_u64("99999999999999999999"), None);
    assert_eq!(read_u64("184467440737095516150"), None);
}

#[test]
fn read_u64_refuses_what_is_no_number() {
    for text in ["", "+", "-", "-1", "++1", "+-1", "1+", "12a", "a12", " 1", "1 ", "1_000", "1.0", "0x10", "\u{661}"] {
        assert_eq!(read_u64(text), None, "{:?}", text);
    }
}

#[test]
fn read_u64_agrees_with_the_standard_parser() {
    let samples = [
        "", "+", "-", "0", "+0", "-0", "1", "+1", "-1", "42", "0042", "+0042", "4 2", "42 ", "abc",
        "18446744073709551615", "18446744073709551616", "1844674407370955161", "٣", "1e3", "１２",
    ];
    for text in samples {
        assert_eq!(read_u64(text), text.parse::<u64>().ok(), "{:?}", text);
    }
}

#[test]
fn decimal_writes_numbers() {
    assert_eq!(decimal(0), "0");
    assert_eq!(decimal(9), "9");
    assert_eq!(decimal(10), "10");
    assert_eq!(decimal(1024001432078258216), "1024001432078258216");
    assert_eq!(decimal(u64::MAX), "18446744073709551615");
}

#[test]
fn decimal_then_read_gives_the_number_back() {
    for n in [0u64, 1, 9, 10, 11, 99, 100, 101, 12345, 1 << 32, u64::MAX - 1, u64::MAX] {
        assert_eq!(read_u64(&decimal(n)), Some(n));
        assert_eq!(decimal(n), n.to_string());
    }
}

#[test]
fn same_text_compares_characters() {
    assert!(same_text("", ""));
    assert!(same_text("abc", "abc"));
    assert!(!same_text("abc", "abd"));
    assert!(!same_text("abc", "ab"));
    assert!(!same_text("abc", "ABC"));
}

#[test]
fn after_prefix_cuts_the_prefix() {
    assert_eq!(after_prefix("Bearer x", "Bearer "), Some("x".to_string()));
    assert_eq!(after_prefix("abc", ""), Some("abc".to_string()));
    assert_eq!(after_prefix("abc", "abc"), Some(String::new()));
    assert_eq!(after_prefix("ab", "abc"), None);
    assert_eq!(after_prefix("xbc", "a"), None);
    assert_eq!(after_prefix("\u{e9}t\u{e9}", "\u{e9}"), Some("t\u{e9}".to_string()));
    assert_eq!(after_prefix("", ""), Some(String::new()));
}
