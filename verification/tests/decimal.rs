use echo_bot::decimal::parse_u64;

#[test]
fn plain_digits_are_read() {
    assert_eq!(parse_u64("0"), Some(0));
    assert_eq!(parse_u64("7"), Some(7));
    assert_eq!(parse_u64("42"), Some(42));
    assert_eq!(parse_u64("1234567890"), Some(1234567890));
}

#[test]
fn a_guild_identifier_is_read() {
    assert_eq!(parse_u64("81384788765712384"), Some(81384788765712384));
}

#[test]
fn leading_zeros_do_not_count() {
    assert_eq!(parse_u64("007"), Some(7));
    assert_eq!(parse_u64("0000000000000000000000000000001"), Some(1));
}

#[test]
fn a_leading_plus_is_accepted() {
    assert_eq!(parse_u64("+5"), Some(5));
    assert_eq!(parse_u64("+0"), Some(0));
    assert_eq!(parse_u64("+18446744073709551615"), Some(u64::MAX));
}

#[test]
fn the_largest_value_is_read() {
    assert_eq!(parse_u64("18446744073709551615"), Some(u64::MAX));
}

#[test]
fn one_past_the_largest_value_is_refused() {
    assert_eq!(parse_u64("18446744073709551616"), None);
}

#[test]
fn overflow_is_refused_however_long_the_text() {
    assert_eq!(parse_u64("18446744073709551620"), None);
    assert_eq!(parse_u64("99999999999999999999"), None);
    assert_eq!(parse_u64("184467440737095516150"), None);
    assert_eq!(parse_u64("100000000000000000000000000000000000000000"), None);
}

#[test]
fn empty_text_is_refused() {
    assert_eq!(parse_u64(""), None);
}

#[test]
fn a_lone_sign_is_refused() {
    assert_eq!(parse_u64("+"), None);
    assert_eq!(parse_u64("-"), None);
}

#[test]
fn a_minus_sign_is_refused() {
    assert_eq!(parse_u64("-1"), None);
    assert_eq!(parse_u64("-0"), None);
}

#[test]
fn a_second_sign_is_refused() {
    assert_eq!(parse_u64("++1"), None);
    assert_eq!(parse_u64("1+"), None);
    assert_eq!(parse_u64("1+1"), None);
}

#[test]
fn letters_are_refused() {
    assert_eq!(parse_u64("abc"), None);
    assert_eq!(parse_u64("12a"), None);
    assert_eq!(parse_u64("a12"), None);
    assert_eq!(parse_u64("0x10"), None);
    assert_eq!(parse_u64("1e3"), None);
}

#[test]
fn surrounding_space_is_refused() {
    assert_eq!(parse_u64(" 1"), None);
    assert_eq!(parse_u64("1 "), None);
    assert_eq!(parse_u64("1\n"), None);
    assert_eq!(parse_u64("\t1"), None);
}

#[test]
fn separators_are_refused() {
    assert_eq!(parse_u64("1_000"), None);
    assert_eq!(parse_u64("1,000"), None);
    assert_eq!(parse_u64("1.0"), None);
}

#[test]
fn digits_outside_ascii_are_refused() {
    assert_eq!(parse_u64("\u{ff11}\u{ff12}"), None);
    assert_eq!(parse_u64("\u{0661}"), None);
    assert_eq!(parse_u64("1\u{00b2}"), None);
}

#[test]
fn characters_next_to_the_digits_are_refused() {
    assert_eq!(parse_u64("/"), None);
    assert_eq!(parse_u64(":"), None);
    assert_eq!(parse_u64("1/"), None);
    assert_eq!(parse_u64("1:"), None);
}

#[test]
fn agrees_with_the_standard_reading() {
    let samples = [
        "", "+", "-", "0", "+0", "-0", "1", "+1", "-1", "00", "010", "+010", "9", "10", "99",
        "18446744073709551614", "18446744073709551615", "18446744073709551616",
        "18446744073709551625", "28446744073709551615", "+18446744073709551615",
        "+18446744073709551616", "000018446744073709551615", "000018446744073709551616",
        "340282366920938463463374607431768211456", " 1", "1 ", "1 2", "1a", "a1", "++1", "+-1",
        "1+", "0x1f", "1e5", "1.5", "1_0", "\u{ff11}", "\u{0663}4", "12\u{0}", "\u{0}12", "٣",
        "echo", "content", "hello world",
    ];
    for s in samples {
        assert_eq!(parse_u64(s), s.parse::<u64>().ok(), "on {:?}", s);
    }
}

#[test]
fn every_small_number_round_trips() {
    for n in 0u64..2000 {
        assert_eq!(parse_u64(&format!("{}", n)), Some(n));
        assert_eq!(parse_u64(&format!("+{}", n)), Some(n));
        assert_eq!(parse_u64(&format!("-{}", n)), None);
    }
}

#[test]
fn numbers_near_the_top_round_trip() {
    for d in 0u64..2000 {
        let n = u64::MAX - d;
        assert_eq!(parse_u64(&format!("{}", n)), Some(n));
    }
}
