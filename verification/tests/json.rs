use claude_cli::json::{json_null_or_string, pretty_text};
use serde_json::Value;

#[test]
fn optional_strings_become_strings_or_null() {
    assert_eq!(json_null_or_string(&Some("x".to_string())), Value::String("x".to_string()));
    assert_eq!(json_null_or_string(&Some("".to_string())), Value::String("".to_string()));
    assert_eq!(json_null_or_string(&None), Value::Null);
}

#[test]
fn pretty_printing_spreads_members_over_lines() {
    let mut object = serde_json::Map::new();
    object.insert("b".to_string(), Value::Bool(true));
    object.insert("a".to_string(), Value::from(7u64));
    assert_eq!(pretty_text(&Value::Object(object)), "{\n  \"a\": 7,\n  \"b\": true\n}");
    assert_eq!(pretty_text(&Value::Null), "null");
}
