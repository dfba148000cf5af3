use sundial::gamma::Gamma;
use sundial::text::{
    ascii_bytes, hundredths_to_text, i64_to_text, parse_hundredths, parse_i64, push_digits,
};

#[test]
fn integers_are_read() {
    assert_eq!(parse_i64("0"), Some(0));
    assert_eq!(parse_i64("6000"), Some(6000));
    assert_eq!(parse_i64("-74"), Some(-74));
    assert_eq!(parse_i64("+5"), Some(5));
    assert_eq!(parse_i64("-0"), Some(0));
    assert_eq!(parse_i64("00012"), Some(12));
    assert_eq!(parse_i64("1755402810"), Some(1755402810));
}

#[test]
fn integers_at_the_limits_are_read() {
    assert_eq!(parse_i64("9223372036854775807"), Some(i64::MAX));
    assert_eq!(parse_i64("-9223372036854775808"), Some(i64::MIN));
    assert_eq!(parse_i64("9223372036854775808"), None);
    assert_eq!(parse_i64("+9223372036854775808"), None);
    assert_eq!(parse_i64("-9223372036854775809"), None);
    assert_eq!(parse_i64("99999999999999999999999999999999999999999999"), None);
    assert_eq!(parse_i64("0000000000000000000000000000000000000000007"), Some(7));
}

#[test]
fn what_is_no_integer_is_refused() {
    for text in ["", "-", "+", "+-1", "--1", "12a", "a12", "1 2", " 12", "12 ", "1.0", "1e3", "0x10", "١٢", "１２"] {
        assert_eq!(parse_i64(text), None, "{}", text);
    }
}

#[test]
fn integers_are_written() {
    assert_eq!(i64_to_text(0), "0");
    assert_eq!(i64_to_text(7), "7");
    assert_eq!(i64_to_text(10), "10");
    assert_eq!(i64_to_text(4390), "4390");
    assert_eq!(i64_to_text(-5), "-5");
    assert_eq!(i64_to_text(i64::MAX), "9223372036854775807");
    assert_eq!(i64_to_text(i64::MIN), "-9223372036854775808");
}

#[test]
fn integers_are_read_back_as_written() {
    for v in [0, 1, -1, 9, 10, 99, 100, -100, 2800, 6000, i64::MAX, i64::MIN, i64::MIN + 1] {
        assert_eq!(parse_i64(&i64_to_text(v)), Some(v));
        assert_eq!(i64_to_text(v), format!("{}", v));
    }
}

#[test]
fn hundredths_are_read() {
    assert_eq!(parse_hundredths("80"), Some(8000));
    assert_eq!(parse_hundredths("100"), Some(10000));
    assert_eq!(parse_hundredths("80.5"), Some(8050));
    assert_eq!(parse_hundredths("80.55"), Some(8055));
    assert_eq!(parse_hundredths("80.05"), Some(8005));
    assert_eq!(parse_hundredths("89.90"), Some(8990));
    assert_eq!(parse_hundredths("0.33"), Some(33));
    assert_eq!(parse_hundredths("-0.5"), Some(-50));
    assert_eq!(parse_hundredths("-0.00"), Some(0));
    assert_eq!(parse_hundredths("+1.25"), Some(125));
    assert_eq!(parse_hundredths("007.1"), Some(710));
}

#[test]
fn hundredths_at_the_limits_are_read() {
    assert_eq!(parse_hundredths("92233720368547758.07"), Some(i64::MAX));
    assert_eq!(parse_hundredths("92233720368547758.08"), None);
    assert_eq!(parse_hundredths("-92233720368547758.08"), Some(i64::MIN));
    assert_eq!(parse_hundredths("-92233720368547758.09"), None);
    assert_eq!(parse_hundredths("92233720368547758"), Some(9223372036854775800));
    assert_eq!(parse_hundredths("92233720368547759"), None);
    assert_eq!(parse_hundredths("100000000000000000"), None);
    assert_eq!(parse_hundredths("100000000000000001.5"), None);
    assert_eq!(parse_hundredths("99999999999999999999999999.99"), None);
}

#[test]
fn what_is_no_fixed_point_number_is_refused() {
    for text in [
        "", "-", "+", ".", "80.", ".5", "-.5", "80.555", "80.5.5", "8.0.5", "80,5", "80.5a", "a80.5",
        "80 .5", "80.-5", "80.+5", " 80", "80 ", "1e2", "８０",
    ] {
        assert_eq!(parse_hundredths(text), None, "{}", text);
    }
}

#[test]
fn hundredths_are_written_with_two_digits_behind_the_point() {
    assert_eq!(hundredths_to_text(8990), "89.90");
    assert_eq!(hundredths_to_text(8000), "80.00");
    assert_eq!(hundredths_to_text(10000), "100.00");
    assert_eq!(hundredths_to_text(5), "0.05");
    assert_eq!(hundredths_to_text(0), "0.00");
    assert_eq!(hundredths_to_text(-50), "-0.50");
    assert_eq!(hundredths_to_text(-12345), "-123.45");
    assert_eq!(hundredths_to_text(i64::MAX), "92233720368547758.07");
    assert_eq!(hundredths_to_text(i64::MIN), "-92233720368547758.08");
}

#[test]
fn hundredths_are_read_back_as_written() {
    for h in [0, 1, -1, 9, 10, 99, 100, 101, -100, -199, 8000, 8990, 10000, i64::MAX, i64::MIN] {
        assert_eq!(parse_hundredths(&hundredths_to_text(h)), Some(h));
    }
}

#[test]
fn gamma_levels_are_read_and_written() {
    assert_eq!(Gamma::parse("80"), Some(Gamma::from_percent(80)));
    assert_eq!(Gamma::parse("89.9"), Some(Gamma::from_hundredths(8990)));
    assert_eq!(Gamma::parse("89.90"), Some(Gamma { hundredths: 8990 }));
    assert_eq!(Gamma::parse("eighty"), None);
    assert_eq!(Gamma::parse("89.901"), None);
    assert_eq!(Gamma::from_percent(100).hundredths, 10000);
    assert_eq!(Gamma::from_percent(-3).hundredths, -300);
    assert_eq!(Gamma::from_percent(i32::MAX).hundredths, 214748364700);
    assert_eq!(Gamma::from_percent(i32::MIN).hundredths, -214748364800);
    assert_eq!(Gamma::from_percent(80).to_text(), "80.00");
    assert_eq!(Gamma::from_hundredths(8990).to_text(), "89.90");
    assert_eq!(Gamma::parse(&Gamma::from_hundredths(-7).to_text()), Some(Gamma::from_hundredths(-7)));
}

#[test]
fn digits_are_appended_with_zeros_in_front() {
    let mut out = String::from("x");
    push_digits(&mut out, 7, 0);
    push_digits(&mut out, 7, 1);
    push_digits(&mut out, 7, 2);
    push_digits(&mut out, 0, 0);
    push_digits(&mut out, 0, 3);
    push_digits(&mut out, 1234, 2);
    push_digits(&mut out, 1234, 6);
    assert_eq!(out, "x770700001234001234");
    let mut out = String::new();
    push_digits(&mut out, u64::MAX, 1);
    assert_eq!(out, "18446744073709551615");
    let mut out = String::new();
    push_digits(&mut out, u64::MAX, 25);
    assert_eq!(out, "0000018446744073709551615");
}

#[test]
fn ascii_text_is_its_bytes() {
    assert_eq!(ascii_bytes(""), Some(&b""[..]));
    assert_eq!(ascii_bytes("06:30:00"), Some(&b"06:30:00"[..]));
    assert_eq!(ascii_bytes("\u{7f}"), Some(&[0x7fu8][..]));
    assert_eq!(ascii_bytes("\u{80}"), None);
    assert_eq!(ascii_bytes("12\u{e9}"), None);
}
