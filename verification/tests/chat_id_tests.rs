use fact_cli::chat_id::parse_chat_id;

#[test]
fn parses_plain_decimals() {
    assert_eq!(parse_chat_id("0"), Some(0));
    assert_eq!(parse_chat_id("123"), Some(123));
    assert_eq!(parse_chat_id("-42"), Some(-42));
    assert_eq!(parse_chat_id("+7"), Some(7));
    assert_eq!(parse_chat_id("000123"), Some(123));
    assert_eq!(parse_chat_id("-001001"), Some(-1001));
}

#[test]
fn parses_the_extremes() {
    assert_eq!(parse_chat_id("9223372036854775807"), Some(i64::MAX));
    assert_eq!(parse_chat_id("-9223372036854775808"), Some(i64::MIN));
    assert_eq!(parse_chat_id("+9223372036854775807"), Some(i64::MAX));
}

#[test]
fn rejects_out_of_range_values() {
    assert_eq!(parse_chat_id("9223372036854775808"), None);
    assert_eq!(parse_chat_id("-9223372036854775809"), None);
    assert_eq!(parse_chat_id("99999999999999999999999999"), None);
    assert_eq!(parse_chat_id("-99999999999999999999999999"), None);
}

#[test]
fn rejects_malformed_text() {
    assert_eq!(parse_chat_id(""), None);
    assert_eq!(parse_chat_id("+"), None);
    assert_eq!(parse_chat_id("-"), None);
    assert_eq!(parse_chat_id("abc"), None);
    assert_eq!(parse_chat_id("12a"), None);
    assert_eq!(parse_chat_id("a12"), None);
    assert_eq!(parse_chat_id(" 12"), None);
    assert_eq!(parse_chat_id("12 "), None);
    assert_eq!(parse_chat_id("1.5"), None);
    assert_eq!(parse_chat_id("--1"), None);
    assert_eq!(parse_chat_id("+-1"), None);
}

#[test]
fn agrees_with_the_platform_parser() {
    let samples = [
        "0",
        "-1",
        "+1",
        "42",
        "007",
        "9223372036854775807",
        "9223372036854775808",
        "-9223372036854775808",
        "-9223372036854775809",
        "",
        "+",
        "x",
        "1x",
        "   3",
    ];
    for s in samples {
        assert_eq!(parse_chat_id(s), s.parse::<i64>().ok(), "input {:?}", s);
    }
}
