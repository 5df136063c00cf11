use llm_providers::json::{parse_tool_input, remove_member, value_or_empty_object};
use serde_json::Value;

fn object(entries: &[(&str, Value)]) -> Value {
    let mut map = serde_json::Map::new();
    for (name, value) in entries {
        map.insert(name.to_string(), value.clone());
    }
    Value::Object(map)
}

#[test]
fn arguments_are_read_as_json() {
    assert_eq!(
        parse_tool_input("{\"city\": \"Oslo\", \"days\": 3}"),
        object(&[("city", Value::from("Oslo")), ("days", Value::from(3))])
    );
    assert_eq!(parse_tool_input(" [1, null] "), Value::Array(vec![Value::from(1), Value::Null]));
}

#[test]
fn arguments_that_are_not_json_count_as_an_empty_object() {
    for text in ["", "{", "{} {}", "not json"] {
        assert_eq!(parse_tool_input(text), object(&[]));
        assert_eq!(parse_tool_input(text), parse_tool_input("{}"));
    }
    assert_eq!(value_or_empty_object(None), object(&[]));
    assert_eq!(value_or_empty_object(Some(Value::Null)), Value::Null);
}

#[test]
fn members_are_removed_from_objects_alone() {
    let mut value = object(&[("a", Value::from(1)), ("b", Value::from(2))]);
    remove_member(&mut value, "a");
    assert_eq!(value, object(&[("b", Value::from(2))]));
    remove_member(&mut value, "a");
    assert_eq!(value, object(&[("b", Value::from(2))]));
    let mut value = Value::from("a");
    remove_member(&mut value, "a");
    assert_eq!(value, Value::from("a"));
}
