use backend::json::{JsonNumber, JsonValue};
use backend::text::{chars_of, decimal, is_whitespace, parse_i64, string_from_chars, trim};

fn s(x: &str) -> String {
    x.to_string()
}

#[test]
fn trim_removes_unicode_whitespace_at_both_ends() {
    assert_eq!(trim(" \t\n a b \r\n"), "a b");
    assert_eq!(trim("\u{3000}\u{00A0}x\u{2028}"), "x");
    assert_eq!(trim("   "), "");
    assert_eq!(trim(""), "");
    assert_eq!(trim("inner  space"), "inner  space");
    assert_eq!(trim("\u{200B}x"), "\u{200B}x");
}

#[test]
fn whitespace_matches_std() {
    for c in ['\t', '\n', '\u{B}', '\u{C}', '\r', ' ', '\u{85}', '\u{A0}', '\u{1680}', '\u{2000}', '\u{200A}', '\u{2028}', '\u{2029}', '\u{202F}', '\u{205F}', '\u{3000}', 'a', '\u{200B}', '\u{FEFF}', '0'] {
        assert_eq!(is_whitespace(c), c.is_whitespace(), "{:?}", c);
    }
}

#[test]
fn decimal_renders_like_to_string() {
    for x in [0i64, 7, 10, -1, -10, 1234567890, i64::MAX, i64::MIN] {
        assert_eq!(decimal(x), x.to_string());
    }
}

#[test]
fn parse_i64_matches_std() {
    for t in ["0", "42", "-42", "+7", "", "-", "+", "12a", " 1", "9223372036854775807", "9223372036854775808",
        "-9223372036854775808", "-9223372036854775809", "00012", "99999999999999999999999"] {
        assert_eq!(parse_i64(t), t.parse::<i64>().ok(), "{:?}", t);
    }
}

#[test]
fn chars_round_trip() {
    let cs = chars_of("héllo");
    assert_eq!(cs, vec!['h', 'é', 'l', 'l', 'o']);
    assert_eq!(string_from_chars(&cs), "héllo");
}

#[test]
fn json_accessors() {
    let v = JsonValue::Object(vec![
        (s("a"), JsonValue::Number(JsonNumber::PosInt(u64::MAX))),
        (s("b"), JsonValue::Number(JsonNumber::NegInt(-5))),
        (s("c"), JsonValue::String(s("x"))),
        (s("d"), JsonValue::Array(vec![JsonValue::Bool(true), JsonValue::String(s("y"))])),
    ]);
    assert_eq!(v.u64_member(&s("a")), Some(u64::MAX));
    assert_eq!(v.i64_member(&s("a")), None);
    assert_eq!(v.u64_member(&s("b")), None);
    assert_eq!(v.i64_member(&s("b")), Some(-5));
    assert_eq!(v.str_member(&s("c")), Some(s("x")));
    assert_eq!(v.str_member(&s("a")), None);
    assert_eq!(v.str_member(&s("missing")), None);
    assert_eq!(v.string_items_member(&s("d")), vec![s("y")]);
    assert_eq!(v.string_items_member(&s("c")), Vec::<String>::new());
    assert_eq!(v.string_members_member(&s("d")), vec![]);
    assert!(v.member(&s("d")).unwrap().element(1).is_some());
    assert!(v.member(&s("d")).unwrap().element(2).is_none());
    assert_eq!(JsonNumber::from_i64(-3), JsonNumber::NegInt(-3));
    assert_eq!(JsonNumber::from_i64(3), JsonNumber::PosInt(3));
}
