use acmed::ident::parse_id;

#[test]
fn numeric_identifier() {
    assert_eq!(parse_id("0"), Some(0));
    assert_eq!(parse_id("1000"), Some(1000));
    assert_eq!(parse_id("007"), Some(7));
    assert_eq!(parse_id("4294967295"), Some(u32::MAX));
    assert_eq!(parse_id("0000000000042"), Some(42));
}

#[test]
fn symbolic_identifier() {
    assert_eq!(parse_id("root"), None);
    assert_eq!(parse_id("12a"), None);
    assert_eq!(parse_id("-1"), None);
    assert_eq!(parse_id("+1"), None);
    assert_eq!(parse_id(" 1"), None);
    assert_eq!(parse_id("\u{661}\u{662}"), None);
    assert_eq!(parse_id("1\u{e9}"), None);
}

#[test]
fn unusable_identifier_asks_for_nothing() {
    assert_eq!(parse_id(""), None);
    assert_eq!(parse_id("4294967296"), None);
    assert_eq!(parse_id("99999999999999999999999999999"), None);
    assert_eq!(parse_id("99999999999999999999x"), None);
}
