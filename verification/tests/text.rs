use devnet_observer::text::{find, join, parse_u64, strip_hex_prefix, to_chars, u128_to_string, u64_to_string};

#[test]
fn parse_u64_reads_plain_digits() {
    assert_eq!(parse_u64("0"), Some(0));
    assert_eq!(parse_u64("42"), Some(42));
    assert_eq!(parse_u64("0042"), Some(42));
}

#[test]
fn parse_u64_takes_one_leading_plus() {
    assert_eq!(parse_u64("+5"), Some(5));
    assert_eq!(parse_u64("++5"), None);
    assert_eq!(parse_u64("+"), None);
}

#[test]
fn parse_u64_refuses_what_is_no_number() {
    assert_eq!(parse_u64(""), None);
    assert_eq!(parse_u64("-1"), None);
    assert_eq!(parse_u64("12a"), None);
    assert_eq!(parse_u64(" 12"), None);
    assert_eq!(parse_u64("1.5"), None);
}

#[test]
fn parse_u64_stops_at_the_largest_number() {
    assert_eq!(parse_u64("18446744073709551615"), Some(u64::MAX));
    assert_eq!(parse_u64("18446744073709551616"), None);
    assert_eq!(parse_u64("99999999999999999999999"), None);
}

#[test]
fn parse_u64_agrees_with_the_standard_parser() {
    for text in ["7", "+7", "007", "", "+", "x", "18446744073709551615", "18446744073709551616"] {
        assert_eq!(parse_u64(text), text.parse::<u64>().ok());
    }
}

#[test]
fn numbers_are_written_in_decimal() {
    assert_eq!(u64_to_string(0), "0");
    assert_eq!(u64_to_string(9), "9");
    assert_eq!(u64_to_string(10), "10");
    assert_eq!(u64_to_string(1234567890), "1234567890");
    assert_eq!(u64_to_string(u64::MAX), "18446744073709551615");
    assert_eq!(u128_to_string(u128::MAX), "340282366920938463463374607431768211455");
}

#[test]
fn written_numbers_are_read_back() {
    for n in [0u64, 1, 9, 10, 99, 100, 65535, u64::MAX] {
        assert_eq!(parse_u64(&u64_to_string(n)), Some(n));
    }
}

#[test]
fn hex_prefix_is_taken_off_once() {
    assert_eq!(strip_hex_prefix("0xabcd"), "abcd");
    assert_eq!(strip_hex_prefix("abcd"), "abcd");
    assert_eq!(strip_hex_prefix("0x"), "");
    assert_eq!(strip_hex_prefix("0"), "0");
    assert_eq!(strip_hex_prefix("0x0x12"), "0x12");
}

#[test]
fn parts_are_joined_with_the_separator_between() {
    assert_eq!(join(&vec![], ", "), "");
    assert_eq!(join(&vec!["a".to_string()], ", "), "a");
    assert_eq!(join(&vec!["a".to_string(), "b".to_string(), "c".to_string()], ", "), "a, b, c");
}

#[test]
fn find_gives_the_first_place_or_the_length() {
    let text = to_chars("a::b::c");
    let colons = to_chars("::");
    assert_eq!(find(&text, &colons, 0), 1);
    assert_eq!(find(&text, &colons, 2), 4);
    assert_eq!(find(&text, &colons, 5), 7);
    assert_eq!(find(&to_chars("abc"), &colons, 0), 3);
    assert_eq!(find(&to_chars(""), &colons, 0), 0);
    assert_eq!(find(&to_chars("a::"), &colons, 9), 3);
}

#[test]
fn to_chars_keeps_every_character() {
    assert_eq!(to_chars("aµb"), vec!['a', 'µ', 'b']);
}
