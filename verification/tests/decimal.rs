use todo_list::decimal::{index_text, parse_index};

#[test]
fn parse_index_reads_plain_digits() {
    assert_eq!(parse_index("0"), Some(0));
    assert_eq!(parse_index("1"), Some(1));
    assert_eq!(parse_index("9"), Some(9));
    assert_eq!(parse_index("10"), Some(10));
    assert_eq!(parse_index("42"), Some(42));
    assert_eq!(parse_index("1234567890"), Some(1234567890));
}

#[test]
fn parse_index_accepts_one_leading_plus() {
    assert_eq!(parse_index("+5"), Some(5));
    assert_eq!(parse_index("+0"), Some(0));
    assert_eq!(parse_index("+"), None);
    assert_eq!(parse_index("++5"), None);
    assert_eq!(parse_index("5+"), None);
    assert_eq!(parse_index("+5+"), None);
}

#[test]
fn parse_index_accepts_leading_zeros() {
    assert_eq!(parse_index("007"), Some(7));
    assert_eq!(parse_index("0000000000000000000000000000000000001"), Some(1));
    assert_eq!(parse_index("+00"), Some(0));
}

#[test]
fn parse_index_refuses_what_is_not_a_number() {
    assert_eq!(parse_index(""), None);
    assert_eq!(parse_index("abc"), None);
    assert_eq!(parse_index("-1"), None);
    assert_eq!(parse_index("-0"), None);
    assert_eq!(parse_index(" 1"), None);
    assert_eq!(parse_index("1 "), None);
    assert_eq!(parse_index("1.0"), None);
    assert_eq!(parse_index("1_000"), None);
    assert_eq!(parse_index("0x10"), None);
    assert_eq!(parse_index("1,2"), None);
    assert_eq!(parse_index("12a"), None);
    assert_eq!(parse_index("\u{0661}"), None);
    assert_eq!(parse_index("\u{ff11}"), None);
    assert_eq!(parse_index("1\u{00e9}"), None);
}

#[test]
fn parse_index_stops_at_the_largest_index() {
    let largest = usize::MAX.to_string();
    assert_eq!(parse_index(&largest), Some(usize::MAX));
    assert_eq!(parse_index(&format!("+{}", largest)), Some(usize::MAX));
    assert_eq!(parse_index(&format!("0{}", largest)), Some(usize::MAX));
    assert_eq!(parse_index(&format!("{}0", largest)), None);
    assert_eq!(parse_index("18446744073709551616"), None);
    assert_eq!(parse_index("99999999999999999999999999999999"), None);
    assert_eq!(parse_index("340282366920938463463374607431768211456"), None);
}

#[test]
fn parse_index_agrees_with_the_standard_parser() {
    let samples = [
        "", "0", "1", "+1", "-1", "+", "-", "++1", "+-1", "01", "10", "99", "100", " 7", "7 ",
        "7\n", "\t7", "seven", "7seven", "1e3", "0b1", "\u{ff11}", "\u{0663}", "4294967295", "4294967296",
        "18446744073709551615", "18446744073709551616", "18446744073709551625",
        "000018446744073709551615", "+18446744073709551615", "1,", ",1", "1,2",
    ];
    for sample in samples {
        assert_eq!(parse_index(sample), sample.parse::<usize>().ok(), "on {:?}", sample);
    }
}

#[test]
fn index_text_writes_decimal() {
    assert_eq!(index_text(0), "0");
    assert_eq!(index_text(7), "7");
    assert_eq!(index_text(9), "9");
    assert_eq!(index_text(10), "10");
    assert_eq!(index_text(11), "11");
    assert_eq!(index_text(100), "100");
    assert_eq!(index_text(1203), "1203");
    assert_eq!(index_text(9_876_543_210), "9876543210");
    assert_eq!(index_text(usize::MAX), usize::MAX.to_string());
}

#[test]
fn index_text_is_read_back_by_parse_index() {
    let samples = [0usize, 1, 9, 10, 19, 20, 99, 100, 101, 65_535, 65_536, 1_000_000, usize::MAX - 1, usize::MAX];
    for n in samples {
        assert_eq!(parse_index(&index_text(n)), Some(n));
        assert_eq!(index_text(n), format!("{}", n));
    }
}
