use jtrace::text::{
    chars_of, parse_decimal, push_decimal, push_signed_decimal, same_text, split_lines,
};

fn unsigned(n: u64) -> String {
    let mut out = String::new();
    push_decimal(&mut out, n);
    out
}

fn signed(v: i64) -> String {
    let mut out = String::new();
    push_signed_decimal(&mut out, v);
    out
}

#[test]
fn decimal_of_small_numbers() {
    assert_eq!(unsigned(0), "0");
    assert_eq!(unsigned(7), "7");
    assert_eq!(unsigned(9), "9");
    assert_eq!(unsigned(10), "10");
    assert_eq!(unsigned(99), "99");
    assert_eq!(unsigned(100), "100");
    assert_eq!(unsigned(1234567890), "1234567890");
}

#[test]
fn decimal_of_the_largest_number() {
    assert_eq!(unsigned(u64::MAX), "18446744073709551615");
}

#[test]
fn decimal_is_appended_behind_what_is_there() {
    let mut out = String::from("n=");
    push_decimal(&mut out, 42);
    assert_eq!(out, "n=42");
    push_decimal(&mut out, 0);
    assert_eq!(out, "n=420");
}

#[test]
fn signed_decimal_puts_a_minus_before_negative_numbers() {
    assert_eq!(signed(0), "0");
    assert_eq!(signed(5), "5");
    assert_eq!(signed(-1), "-1");
    assert_eq!(signed(-38), "-38");
    assert_eq!(signed(i64::MAX), "9223372036854775807");
    assert_eq!(signed(i64::MIN), "-9223372036854775808");
    assert_eq!(signed(i64::MIN + 1), "-9223372036854775807");
}

#[test]
fn parse_reads_digits() {
    assert_eq!(parse_decimal("0"), Some(0));
    assert_eq!(parse_decimal("7"), Some(7));
    assert_eq!(parse_decimal("42"), Some(42));
    assert_eq!(parse_decimal("0042"), Some(42));
    assert_eq!(parse_decimal("18446744073709551615"), Some(u64::MAX));
    assert_eq!(parse_decimal("00018446744073709551615"), Some(u64::MAX));
}

#[test]
fn parse_refuses_what_does_not_fit() {
    assert_eq!(parse_decimal("18446744073709551616"), None);
    assert_eq!(parse_decimal("18446744073709551620"), None);
    assert_eq!(parse_decimal("99999999999999999999"), None);
    assert_eq!(parse_decimal("100000000000000000000000"), None);
}

#[test]
fn parse_refuses_what_is_no_numeral() {
    assert_eq!(parse_decimal(""), None);
    assert_eq!(parse_decimal("-1"), None);
    assert_eq!(parse_decimal("+1"), None);
    assert_eq!(parse_decimal(" 1"), None);
    assert_eq!(parse_decimal("1 "), None);
    assert_eq!(parse_decimal("12a"), None);
    assert_eq!(parse_decimal("0x10"), None);
    // digits of another script are no decimal numeral here
    assert_eq!(parse_decimal("\u{661}\u{662}"), None);
}

#[test]
fn parse_gives_back_what_decimal_wrote() {
    let samples: [u64; 9] =
        [0, 1, 9, 10, 11, 255, 4294967296, 9999999999999999999, u64::MAX];
    for n in samples {
        assert_eq!(parse_decimal(&unsigned(n)), Some(n));
    }
}

#[test]
fn chars_of_gives_the_characters_in_order() {
    assert_eq!(chars_of(""), Vec::<char>::new());
    assert_eq!(chars_of("abc"), vec!['a', 'b', 'c']);
    assert_eq!(chars_of("a\u{e9}\u{4e2d}z"), vec!['a', '\u{e9}', '\u{4e2d}', 'z']);
}

#[test]
fn same_text_compares_character_by_character() {
    assert!(same_text("", ""));
    assert!(same_text("read", "read"));
    assert!(!same_text("read", "reads"));
    assert!(!same_text("read", "rear"));
    assert!(!same_text("", "x"));
    assert!(same_text("\u{e9}t\u{e9}", "\u{e9}t\u{e9}"));
    assert!(!same_text("\u{e9}", "e"));
}

#[test]
fn a_text_without_line_feed_is_one_line() {
    assert_eq!(split_lines(""), vec![String::new()]);
    assert_eq!(split_lines("abc"), vec![String::from("abc")]);
}

#[test]
fn a_text_with_n_line_feeds_has_n_plus_one_lines() {
    assert_eq!(split_lines("a\nb"), vec![String::from("a"), String::from("b")]);
    assert_eq!(split_lines("a\n"), vec![String::from("a"), String::new()]);
    assert_eq!(split_lines("\n"), vec![String::new(), String::new()]);
    assert_eq!(split_lines("\n\nx"), vec![String::new(), String::new(), String::from("x")]);
    assert_eq!(
        split_lines("one\ntwo\nthree\n"),
        vec![String::from("one"), String::from("two"), String::from("three"), String::new()]
    );
}

#[test]
fn a_carriage_return_stays_in_its_line() {
    assert_eq!(split_lines("a\r\nb"), vec![String::from("a\r"), String::from("b")]);
}

#[test]
fn lines_joined_by_line_feeds_give_the_text_back() {
    let samples = ["", "x", "\n", "a\nb\n", "\n\n\n", "#define __NR_read 0\n#define __NR_write 1"];
    for text in samples {
        assert_eq!(split_lines(text).join("\n"), text);
        for line in split_lines(text) {
            assert!(!line.contains('\n'));
        }
    }
}

#[test]
fn lines_keep_characters_of_several_bytes() {
    assert_eq!(
        split_lines("\u{e9}\u{4e2d}\nz\u{1f600}"),
        vec![String::from("\u{e9}\u{4e2d}"), String::from("z\u{1f600}")]
    );
}
