use memocore::parse::parse_extraction;

#[test]
fn empty_object_yields_no_fields() {
    let f = parse_extraction("{}").expect("an empty object is within the schema");
    assert_eq!(f.name, None);
    assert_eq!(f.emoji, None);
    assert_eq!(f.duration, None);
}

#[test]
fn full_object_in_any_member_order() {
    let f = parse_extraction("{\"duration\":30,\"emoji\":\"🏃\",\"name\":\"Jog\"}").unwrap();
    assert_eq!(f.name.as_deref(), Some("Jog"));
    assert_eq!(f.emoji.as_deref(), Some("🏃"));
    assert_eq!(f.duration, Some(30));
}

#[test]
fn whitespace_is_tolerated_everywhere() {
    let f = parse_extraction("  {\n\t\"name\" :\t\"A\" ,\r\n \"duration\" : 5 }  ").unwrap();
    assert_eq!(f.name.as_deref(), Some("A"));
    assert_eq!(f.duration, Some(5));
}

#[test]
fn string_escapes_are_decoded() {
    let f = parse_extraction("{\"name\":\"a\\\"b\\\\c\\nd\\te\\/f\"}").unwrap();
    assert_eq!(f.name.as_deref(), Some("a\"b\\c\nd\te/f"));
}

#[test]
fn unknown_escape_is_refused() {
    assert!(parse_extraction("{\"name\":\"a\\qb\"}").is_none());
}

#[test]
fn unknown_key_is_refused() {
    assert!(parse_extraction("{\"nombre\":\"x\"}").is_none());
}

#[test]
fn duplicate_key_is_refused() {
    assert!(parse_extraction("{\"name\":\"a\",\"name\":\"b\"}").is_none());
}

#[test]
fn trailing_text_is_refused() {
    assert!(parse_extraction("{} trailing").is_none());
    assert!(parse_extraction("{\"name\":\"a\"} {}").is_none());
}

#[test]
fn non_object_replies_are_refused() {
    assert!(parse_extraction("").is_none());
    assert!(parse_extraction("null").is_none());
    assert!(parse_extraction("[1,2]").is_none());
    assert!(parse_extraction("\"name\"").is_none());
    assert!(parse_extraction("plain prose").is_none());
}

#[test]
fn unterminated_object_or_string_is_refused() {
    assert!(parse_extraction("{\"name\":\"a\"").is_none());
    assert!(parse_extraction("{\"name\":\"a").is_none());
    assert!(parse_extraction("{").is_none());
}

#[test]
fn duration_must_be_an_integer() {
    assert!(parse_extraction("{\"duration\":\"30\"}").is_none());
    assert!(parse_extraction("{\"duration\":30.5}").is_none());
    assert!(parse_extraction("{\"duration\":-3}").is_none());
}

#[test]
fn duration_zero_is_accepted() {
    let f = parse_extraction("{\"duration\":0}").unwrap();
    assert_eq!(f.duration, Some(0));
}

#[test]
fn leading_zero_is_refused() {
    assert!(parse_extraction("{\"duration\":030}").is_none());
}

#[test]
fn duration_bounds_at_u32() {
    let f = parse_extraction("{\"duration\":4294967295}").unwrap();
    assert_eq!(f.duration, Some(4294967295));
    assert!(parse_extraction("{\"duration\":4294967296}").is_none());
    assert!(parse_extraction("{\"duration\":99999999999999999999}").is_none());
}

#[test]
fn emoji_passes_through_raw() {
    let f = parse_extraction("{\"emoji\":\"🏃‍♀️\"}").unwrap();
    assert_eq!(f.emoji.as_deref(), Some("🏃‍♀️"));
}

#[test]
fn unicode_escapes_are_decoded() {
    let f = parse_extraction("{\"name\":\"\\u0041x\\u00e9\"}").unwrap();
    assert_eq!(f.name.as_deref(), Some("Axé"));
}

#[test]
fn unicode_escapes_accept_upper_case_hex() {
    let f = parse_extraction("{\"name\":\"\\u00E9\"}").unwrap();
    assert_eq!(f.name.as_deref(), Some("é"));
}

#[test]
fn surrogate_pair_escapes_are_combined() {
    let f = parse_extraction("{\"emoji\":\"\\ud83c\\udfc3\"}").unwrap();
    assert_eq!(f.emoji.as_deref(), Some("🏃"));
}

#[test]
fn lone_surrogates_are_refused() {
    assert!(parse_extraction("{\"name\":\"\\ud83c\"}").is_none());
    assert!(parse_extraction("{\"name\":\"\\udfc3\"}").is_none());
    assert!(parse_extraction("{\"name\":\"\\ud83c\\u0041\"}").is_none());
    assert!(parse_extraction("{\"name\":\"\\ud83cx\"}").is_none());
}

#[test]
fn bad_hex_in_unicode_escape_is_refused() {
    assert!(parse_extraction("{\"name\":\"\\uZZ11\"}").is_none());
    assert!(parse_extraction("{\"name\":\"\\u00\"}").is_none());
    assert!(parse_extraction("{\"name\":\"\\u\"}").is_none());
}

#[test]
fn null_member_value_is_refused() {
    assert!(parse_extraction("{\"name\":null}").is_none());
    assert!(parse_extraction("{\"duration\":null}").is_none());
}

#[test]
fn a_fourth_member_is_refused() {
    assert!(
        parse_extraction("{\"name\":\"a\",\"emoji\":\"b\",\"duration\":1,\"name\":\"c\"}")
            .is_none()
    );
}
