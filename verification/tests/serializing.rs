use memocore::data::{Memo, WeeklyRequest};
use memocore::digits::append_u32_dec;
use memocore::serial::serialize_weekly;

fn memo(genre: &str, name: &str, duration: u32, text: &str) -> Memo {
    Memo {
        genre: genre.to_string(),
        name: name.to_string(),
        duration,
        memo: text.to_string(),
    }
}

#[test]
fn one_memo_serializes_exactly() {
    let req = WeeklyRequest { memos: vec![memo("g", "n", 30, "m")] };
    assert_eq!(
        serialize_weekly(&req),
        "{\"memos\":[{\"genre\":\"g\",\"name\":\"n\",\"duration\":30,\"memo\":\"m\"}]}"
    );
}

#[test]
fn two_memos_are_comma_separated() {
    let req = WeeklyRequest { memos: vec![memo("a", "b", 1, "c"), memo("d", "e", 2, "f")] };
    assert_eq!(
        serialize_weekly(&req),
        "{\"memos\":[{\"genre\":\"a\",\"name\":\"b\",\"duration\":1,\"memo\":\"c\"},{\"genre\":\"d\",\"name\":\"e\",\"duration\":2,\"memo\":\"f\"}]}"
    );
}

#[test]
fn no_memos_give_an_empty_array() {
    let req = WeeklyRequest { memos: vec![] };
    assert_eq!(serialize_weekly(&req), "{\"memos\":[]}");
}

#[test]
fn string_fields_are_escaped() {
    let req = WeeklyRequest { memos: vec![memo("g\"h", "n\\o", 7, "line one\nline\ttwo\r")] };
    assert_eq!(
        serialize_weekly(&req),
        "{\"memos\":[{\"genre\":\"g\\\"h\",\"name\":\"n\\\\o\",\"duration\":7,\"memo\":\"line one\\nline\\ttwo\\r\"}]}"
    );
}

#[test]
fn control_characters_are_escaped() {
    let req = WeeklyRequest { memos: vec![memo("g", "n", 1, "a\u{0008}b\u{000C}c\u{0001}d\u{001f}e")] };
    assert_eq!(
        serialize_weekly(&req),
        "{\"memos\":[{\"genre\":\"g\",\"name\":\"n\",\"duration\":1,\"memo\":\"a\\bb\\fc\\u0001d\\u001fe\"}]}"
    );
}

#[test]
fn unicode_passes_through_unescaped() {
    let req = WeeklyRequest { memos: vec![memo("🏃", "Jog", 30, "ran by the café")] };
    let s = serialize_weekly(&req);
    assert!(s.contains("\"genre\":\"🏃\""));
    assert!(s.contains("café"));
}

#[test]
fn decimal_text_is_exact() {
    let mut s = String::new();
    append_u32_dec(&mut s, 0);
    assert_eq!(s, "0");
    let mut s = String::new();
    append_u32_dec(&mut s, 30);
    assert_eq!(s, "30");
    let mut s = String::new();
    append_u32_dec(&mut s, 1002003);
    assert_eq!(s, "1002003");
    let mut s = String::from("x=");
    append_u32_dec(&mut s, 4294967295);
    assert_eq!(s, "x=4294967295");
}
