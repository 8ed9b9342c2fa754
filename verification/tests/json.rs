use web_pty::json::{JsonNumber, JsonValue};

#[test]
fn get_finds_object_members() {
    let v = JsonValue::Object(vec![
        ("a".to_string(), JsonValue::Bool(true)),
        ("b".to_string(), JsonValue::Number(JsonNumber::PosInt(7))),
    ]);
    assert!(matches!(v.get(&"a".to_string()), Some(JsonValue::Bool(true))));
    assert_eq!(v.get(&"b".to_string()).unwrap().as_u64(), Some(7));
    assert!(v.get(&"c".to_string()).is_none());
}

#[test]
fn get_on_non_objects_finds_nothing() {
    let arr = JsonValue::Array(vec![JsonValue::Null]);
    assert!(arr.get(&"0".to_string()).is_none());
    assert!(JsonValue::String("a".to_string()).get(&"a".to_string()).is_none());
}

#[test]
fn as_u64_only_for_non_negative_integers() {
    assert_eq!(JsonValue::Number(JsonNumber::PosInt(u64::MAX)).as_u64(), Some(u64::MAX));
    assert_eq!(JsonValue::Number(JsonNumber::NegInt(-5)).as_u64(), None);
    assert_eq!(JsonValue::Number(JsonNumber::Float).as_u64(), None);
    assert_eq!(JsonValue::Null.as_u64(), None);
}

#[test]
fn is_object() {
    assert!(JsonValue::Object(vec![]).is_object());
    assert!(!JsonValue::Array(vec![]).is_object());
}
