use conditional_response::parse::{parse_if_none_match_value, parse_if_unmodified_since};

#[test]
fn single_quoted_token() {
    assert_eq!(
        parse_if_none_match_value("\"abc\""),
        Some(vec![String::from("abc")])
    );
}

#[test]
fn several_tokens_with_blanks() {
    assert_eq!(
        parse_if_none_match_value("\"a\", \"b\" ,\t\"c\""),
        Some(vec![
            String::from("a"),
            String::from("b"),
            String::from("c")
        ])
    );
}

#[test]
fn empty_token_is_kept() {
    assert_eq!(
        parse_if_none_match_value("\"\""),
        Some(vec![String::new()])
    );
}

#[test]
fn non_ascii_token() {
    assert_eq!(
        parse_if_none_match_value("\"caf\u{e9}\""),
        Some(vec![String::from("caf\u{e9}")])
    );
}

#[test]
fn empty_value_is_absent() {
    assert_eq!(parse_if_none_match_value(""), None);
    assert_eq!(parse_if_none_match_value("   "), None);
}

#[test]
fn unquoted_token_is_absent() {
    assert_eq!(parse_if_none_match_value("abc"), None);
    assert_eq!(parse_if_none_match_value("\"a\", b"), None);
}

#[test]
fn inner_quote_is_absent() {
    assert_eq!(parse_if_none_match_value("\"a\"b\""), None);
}

#[test]
fn dangling_quote_is_absent() {
    assert_eq!(parse_if_none_match_value("\""), None);
}

#[test]
fn trailing_comma_is_absent() {
    assert_eq!(parse_if_none_match_value("\"a\","), None);
}

#[test]
fn rfc2822_date_parses_to_exact_instant() {
    assert_eq!(
        parse_if_unmodified_since(Some("Wed, 18 Feb 2015 23:16:09 GMT")),
        Some(1424301369)
    );
}

#[test]
fn rfc2822_epoch_start() {
    assert_eq!(
        parse_if_unmodified_since(Some("Thu, 01 Jan 1970 00:00:00 GMT")),
        Some(0)
    );
}

#[test]
fn rfc2822_offset_is_respected() {
    assert_eq!(
        parse_if_unmodified_since(Some("Wed, 18 Feb 2015 23:16:09 +0100")),
        Some(1424301369 - 3600)
    );
}

#[test]
fn unparseable_date_is_absent() {
    assert_eq!(parse_if_unmodified_since(Some("not a date")), None);
    assert_eq!(parse_if_unmodified_since(Some("")), None);
}

#[test]
fn missing_date_is_absent() {
    assert_eq!(parse_if_unmodified_since(None), None);
}
