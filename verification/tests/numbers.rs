use nixpkgs_track::text::{chars_of, decimal, digit_of, digit_str, join, parse_u64, same_text};

#[test]
fn decimal_writes_the_shortest_numeral() {
    assert_eq!(decimal(0), "0");
    assert_eq!(decimal(7), "7");
    assert_eq!(decimal(10), "10");
    assert_eq!(decimal(370713), "370713");
    assert_eq!(decimal(1_000_000), "1000000");
    assert_eq!(decimal(u64::MAX), "18446744073709551615");
}

#[test]
fn digits_are_written_and_read() {
    for d in 0u8..10 {
        let s = digit_str(d);
        assert_eq!(s, d.to_string());
        assert_eq!(digit_of(s.chars().next().unwrap()), Some(d));
    }
    assert_eq!(digit_of('a'), None);
    assert_eq!(digit_of('+'), None);
    assert_eq!(digit_of(' '), None);
    assert_eq!(digit_of('٣'), None);
}

#[test]
fn parse_u64_reads_plain_numerals() {
    assert_eq!(parse_u64("0"), Some(0));
    assert_eq!(parse_u64("370713"), Some(370713));
    assert_eq!(parse_u64("000123"), Some(123));
    assert_eq!(parse_u64("18446744073709551615"), Some(u64::MAX));
}

#[test]
fn parse_u64_accepts_one_leading_plus() {
    assert_eq!(parse_u64("+5"), Some(5));
    assert_eq!(parse_u64("+0"), Some(0));
    assert_eq!(parse_u64("++5"), None);
    assert_eq!(parse_u64("+"), None);
    assert_eq!(parse_u64("5+"), None);
}

#[test]
fn parse_u64_rejects_everything_else() {
    assert_eq!(parse_u64(""), None);
    assert_eq!(parse_u64("-1"), None);
    assert_eq!(parse_u64(" 1"), None);
    assert_eq!(parse_u64("1 "), None);
    assert_eq!(parse_u64("1_000"), None);
    assert_eq!(parse_u64("12a"), None);
    assert_eq!(parse_u64("invalid"), None);
    assert_eq!(parse_u64("٣"), None);
}

#[test]
fn parse_u64_rejects_what_does_not_fit() {
    assert_eq!(parse_u64("18446744073709551616"), None);
    assert_eq!(parse_u64("18446744073709551620"), None);
    assert_eq!(parse_u64("99999999999999999999"), None);
    assert_eq!(parse_u64("100000000000000000000000000000"), None);
}

#[test]
fn parse_u64_agrees_with_std() {
    let samples = [
        "", "+", "-", "0", "00", "+0", "-0", "1", "+1", "-1", "42", " 42", "42 ", "4 2", "0x10",
        "18446744073709551615", "18446744073709551616", "+18446744073709551615", "1e3", "١٢٣",
    ];
    for s in samples {
        assert_eq!(parse_u64(s), s.parse::<u64>().ok(), "input {:?}", s);
    }
}

#[test]
fn writing_and_reading_a_number_gives_it_back() {
    for n in [0u64, 1, 9, 10, 99, 100, 12345, u64::MAX - 1, u64::MAX] {
        assert_eq!(parse_u64(&decimal(n)), Some(n));
        assert_eq!(decimal(n), n.to_string());
    }
}

#[test]
fn chars_of_lists_the_characters() {
    assert_eq!(chars_of(""), Vec::<char>::new());
    assert_eq!(chars_of("a✅b"), vec!['a', '✅', 'b']);
}

#[test]
fn same_text_compares_contents() {
    assert!(same_text("", ""));
    assert!(same_text("behind", "behind"));
    assert!(!same_text("behind", "Behind"));
    assert!(!same_text("behind", "behin"));
}

#[test]
fn join_puts_the_separator_between_neighbours() {
    assert_eq!(join(&vec![], ", "), "");
    assert_eq!(join(&vec!["a".to_string()], ", "), "a");
    assert_eq!(join(&vec!["a".to_string(), "b".to_string(), "c".to_string()], ", "), "a, b, c");
    assert_eq!(join(&vec!["".to_string(), "".to_string()], "-"), "-");
}
