use bootstrap_monitor::decimal::{chars_of, parse_i32, parse_i32_chars, parse_magnitude};

#[test]
fn plain_numerals() {
    assert_eq!(parse_i32("0"), Some(0));
    assert_eq!(parse_i32("7"), Some(7));
    assert_eq!(parse_i32("42"), Some(42));
    assert_eq!(parse_i32("1234567"), Some(1234567));
}

#[test]
fn signs() {
    assert_eq!(parse_i32("-1"), Some(-1));
    assert_eq!(parse_i32("+1"), Some(1));
    assert_eq!(parse_i32("-0"), Some(0));
    assert_eq!(parse_i32("+0"), Some(0));
    assert_eq!(parse_i32("-"), None);
    assert_eq!(parse_i32("+"), None);
    assert_eq!(parse_i32("--1"), None);
    assert_eq!(parse_i32("+-1"), None);
    assert_eq!(parse_i32("1-"), None);
}

#[test]
fn leading_zeros_are_digits_like_any_other() {
    assert_eq!(parse_i32("007"), Some(7));
    assert_eq!(parse_i32("-000000000000000000012"), Some(-12));
    assert_eq!(parse_i32("00000000000000000000000000002147483647"), Some(i32::MAX));
}

#[test]
fn limits_of_i32() {
    assert_eq!(parse_i32("2147483647"), Some(i32::MAX));
    assert_eq!(parse_i32("+2147483647"), Some(i32::MAX));
    assert_eq!(parse_i32("2147483648"), None);
    assert_eq!(parse_i32("-2147483648"), Some(i32::MIN));
    assert_eq!(parse_i32("-2147483649"), None);
    assert_eq!(parse_i32("4294967296"), None);
    assert_eq!(parse_i32("99999999999999999999999999999999999999999999"), None);
    assert_eq!(parse_i32("-99999999999999999999999999999999999999999999"), None);
}

#[test]
fn what_is_no_numeral() {
    assert_eq!(parse_i32(""), None);
    assert_eq!(parse_i32(" "), None);
    assert_eq!(parse_i32(" 5"), None);
    assert_eq!(parse_i32("5 "), None);
    assert_eq!(parse_i32("5\n"), None);
    assert_eq!(parse_i32("1_000"), None);
    assert_eq!(parse_i32("1.0"), None);
    assert_eq!(parse_i32("1e3"), None);
    assert_eq!(parse_i32("0x10"), None);
    assert_eq!(parse_i32("abc"), None);
    assert_eq!(parse_i32("null"), None);
    assert_eq!(parse_i32("١٢٣"), None);
    assert_eq!(parse_i32("１２"), None);
    assert_eq!(parse_i32("12/"), None);
    assert_eq!(parse_i32("12:"), None);
}

#[test]
fn agrees_with_the_standard_parser() {
    let mut samples: Vec<String> = vec![
        "", "-", "+", "0", "-0", "+0", "00", "9", "10", "-10", "+10", "2147483647", "2147483648",
        "-2147483648", "-2147483649", "21474836470", "a", "1a", "a1", " 1", "1 ", "+ 1", "1+", "٣",
        "/", ":", "0/", "0:", "１", "1\u{0}", "\u{0}1", "--", "++1", "-+1", "18446744073709551616",
        "340282366920938463463374607431768211456",
    ]
    .into_iter()
    .map(String::from)
    .collect();
    for n in -150i64..150 {
        samples.push(n.to_string());
        samples.push(format!("+{}", n));
        samples.push((n + 2147483647).to_string());
        samples.push((n - 2147483648).to_string());
        samples.push(format!("{:05}", n));
    }
    for sample in &samples {
        assert_eq!(parse_i32(sample), sample.parse::<i32>().ok(), "on {:?}", sample);
    }
}

#[test]
fn characters_of_a_text() {
    assert_eq!(chars_of(""), Vec::<char>::new());
    assert_eq!(chars_of("a\"b"), vec!['a', '"', 'b']);
    assert_eq!(chars_of("é１"), vec!['é', '１']);
}

#[test]
fn numerals_given_as_characters() {
    assert_eq!(parse_i32_chars(&vec!['-', '4', '2']), Some(-42));
    assert_eq!(parse_i32_chars(&vec![]), None);
    assert_eq!(parse_i32_chars(&vec!['4', 'x']), None);
}

#[test]
fn magnitude_from_a_position_and_up_to_a_limit() {
    let chars: Vec<char> = "x123".chars().collect();
    assert_eq!(parse_magnitude(&chars, 1, 1000), Some(123));
    assert_eq!(parse_magnitude(&chars, 1, 123), Some(123));
    assert_eq!(parse_magnitude(&chars, 1, 122), None);
    assert_eq!(parse_magnitude(&chars, 2, 122), Some(23));
    assert_eq!(parse_magnitude(&chars, 0, 1000), None);
    assert_eq!(parse_magnitude(&chars, 4, 1000), None);
    let big: Vec<char> = "18446744073709551615".chars().collect();
    assert_eq!(parse_magnitude(&big, 0, u64::MAX), Some(u64::MAX));
    let bigger: Vec<char> = "18446744073709551616".chars().collect();
    assert_eq!(parse_magnitude(&bigger, 0, u64::MAX), None);
    let huge: Vec<char> = "99999999999999999999999999999999999999999".chars().collect();
    assert_eq!(parse_magnitude(&huge, 0, u64::MAX), None);
    assert_eq!(parse_magnitude(&huge, 0, 0), None);
    let zeros: Vec<char> = "0000".chars().collect();
    assert_eq!(parse_magnitude(&zeros, 0, 0), Some(0));
}
