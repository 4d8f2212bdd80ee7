use flow_bot::json::{parse_i64, push_dec_i64, push_dec_u64, push_escaped, push_json_string};

fn escaped(s: &str) -> String {
    let mut out: Vec<u8> = Vec::new();
    push_escaped(&mut out, s.as_bytes());
    String::from_utf8(out).unwrap()
}

fn json_string(s: &str) -> String {
    let mut out: Vec<u8> = Vec::new();
    push_json_string(&mut out, s);
    String::from_utf8(out).unwrap()
}

#[test]
fn escapes_quotes_and_backslashes() {
    assert_eq!(escaped("say \"hi\""), "say \\\"hi\\\"");
    assert_eq!(escaped("a\\b"), "a\\\\b");
}

#[test]
fn escapes_named_control_characters() {
    assert_eq!(escaped("a\nb\tc\rd"), "a\\nb\\tc\\rd");
    assert_eq!(escaped("\u{8}\u{c}"), "\\b\\f");
}

#[test]
fn escapes_other_control_characters_as_hex() {
    assert_eq!(escaped("\u{1}"), "\\u0001");
    assert_eq!(escaped("\u{1f}"), "\\u001f");
}

#[test]
fn passes_unicode_through() {
    assert_eq!(escaped("héllo 世界"), "héllo 世界");
}

#[test]
fn json_string_agrees_with_reference_encoder() {
    for s in ["", "plain", "quote \" back \\ slash", "line\nbreak\u{1f}", "汉字"] {
        let expected = serde_json::to_string(s).unwrap();
        assert_eq!(json_string(s), expected);
    }
}

#[test]
fn renders_unsigned_decimals() {
    let mut out: Vec<u8> = Vec::new();
    push_dec_u64(&mut out, 0);
    push_dec_u64(&mut out, 9);
    push_dec_u64(&mut out, 10);
    push_dec_u64(&mut out, 18446744073709551615);
    assert_eq!(String::from_utf8(out).unwrap(), "091018446744073709551615");
}

#[test]
fn renders_signed_decimals() {
    let mut out: Vec<u8> = Vec::new();
    push_dec_i64(&mut out, -1);
    push_dec_i64(&mut out, i64::MIN);
    push_dec_i64(&mut out, i64::MAX);
    assert_eq!(
        String::from_utf8(out).unwrap(),
        "-1-92233720368547758089223372036854775807"
    );
}

#[test]
fn parses_plain_decimals() {
    assert_eq!(parse_i64("0"), Some(0));
    assert_eq!(parse_i64("42"), Some(42));
    assert_eq!(parse_i64("007"), Some(7));
}

#[test]
fn parses_signs() {
    assert_eq!(parse_i64("-5"), Some(-5));
    assert_eq!(parse_i64("+5"), Some(5));
}

#[test]
fn parses_the_extremes() {
    assert_eq!(parse_i64("9223372036854775807"), Some(i64::MAX));
    assert_eq!(parse_i64("-9223372036854775808"), Some(i64::MIN));
}

#[test]
fn rejects_out_of_range_values() {
    assert_eq!(parse_i64("9223372036854775808"), None);
    assert_eq!(parse_i64("-9223372036854775809"), None);
    assert_eq!(parse_i64("99999999999999999999999"), None);
}

#[test]
fn rejects_malformed_text() {
    assert_eq!(parse_i64(""), None);
    assert_eq!(parse_i64("+"), None);
    assert_eq!(parse_i64("-"), None);
    assert_eq!(parse_i64("12a"), None);
    assert_eq!(parse_i64(" 12"), None);
    assert_eq!(parse_i64("1 2"), None);
}

#[test]
fn parser_agrees_with_the_standard_one() {
    for s in ["17", "-0", "+123", "junk", "9223372036854775808", "184"] {
        assert_eq!(parse_i64(s), s.parse::<i64>().ok());
    }
}
