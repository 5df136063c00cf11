//! JSON values, which are `serde_json`'s, and what the library does with them.
use serde_json::Value;
use vstd::prelude::*;

verus! {

/// `serde_json::Value`, a JSON value.
#[verifier::external_type_specification]
#[verifier::external_body]
pub struct ExValue(serde_json::Value);

/// `serde_json::Map`, the members of a JSON object.
#[verifier::external_type_specification]
#[verifier::external_body]
#[verifier::reject_recursive_types(K)]
#[verifier::reject_recursive_types(V)]
pub struct ExJsonMap<K, V>(serde_json::Map<K, V>);

/// What a `serde_json::Map` holds.
pub uninterp spec fn json_entries(map: serde_json::Map<String, Value>) -> Map<Seq<char>, Value>;

/// The members of a value that is an object; nothing for any other value.
pub uninterp spec fn json_members(value: Value) -> Option<Map<Seq<char>, Value>>;

/// `Value::Object`: the object with the given members.
pub uninterp spec fn json_object(members: Map<Seq<char>, Value>) -> Value;

/// `serde_json::from_str`: the value that a text spells; nothing where it spells none.
pub uninterp spec fn json_parsed(text: Seq<char>) -> Option<Value>;

/// `Value`'s `Display`: the compact text of a value.
pub uninterp spec fn json_text(value: Value) -> Seq<char>;

/// `Value::as_object_mut`: access to the members of an object. What the map holds when the access
/// ends are the members of the value from then on. A value that is no object is left alone.
pub assume_specification[ serde_json::Value::as_object_mut ](value: &mut Value) -> (r: Option<
    &mut serde_json::Map<String, Value>,
>)
    ensures
        match r {
            Some(map) => {
                &&& json_members(*old(value)) == Some(json_entries(*map))
                &&& json_members(*final(value)) == Some(json_entries(*final(map)))
                &&& *final(value) == json_object(json_entries(*final(map)))
            },
            None => json_members(*old(value)) is None && *final(value) == *old(value),
        },
;

/// `serde_json::Map::remove`: takes the entry under the key out of the map and gives its value.
#[verifier::external_body]
fn remove_entry(map: &mut serde_json::Map<String, Value>, key: &str) -> (r: Option<Value>)
    ensures
        json_entries(*final(map)) == json_entries(*old(map)).remove(key@),
        r == (if json_entries(*old(map)).contains_key(key@) {
            Some(json_entries(*old(map))[key@])
        } else {
            None
        }),
{
    map.remove(key)
}

/// `serde_json::Map::new`, as a value: the object without members, which is what `{}` spells.
#[verifier::external_body]
fn empty_object() -> (r: Value)
    ensures
        r == json_object(Map::empty()),
        json_members(r) == Some(Map::<Seq<char>, Value>::empty()),
        json_parsed("{}"@) == Some(r),
{
    Value::Object(serde_json::Map::new())
}

/// `serde_json::from_str`: reads the whole text as one JSON value. Why a text spells none is not
/// kept.
#[verifier::external_body]
fn parse(text: &str) -> (r: Option<Value>)
    ensures
        r == json_parsed(text@),
{
    serde_json::from_str(text).ok()
}

/// `to_string` on a `Value`: its compact text.
#[verifier::external_body]
pub(crate) fn to_text(value: &Value) -> (r: String)
    ensures
        r@ == json_text(*value),
{
    value.to_string()
}

/// `Value::default`: the null value, whose text is `null` and which `null` spells.
#[verifier::external_body]
pub(crate) fn null() -> (r: Value)
    ensures
        json_text(r) == "null"@,
        json_parsed("null"@) == Some(r),
        json_members(r) is None,
{
    Value::default()
}

/// The value without the given member, if it is an object; any other value as it is.
pub open spec fn without_member(value: Value, key: Seq<char>) -> Value {
    match json_members(value) {
        Some(members) => json_object(members.remove(key)),
        None => value,
    }
}

/// Takes a member out of a value that is an object.
pub fn remove_member(value: &mut Value, key: &str)
    ensures
        *final(value) == without_member(*old(value), key@),
        json_members(*final(value)) == (match json_members(*old(value)) {
            Some(members) => Some(members.remove(key@)),
            None => None,
        }),
{
    if let Some(map) = value.as_object_mut() {
        remove_entry(map, key);
    }
}

/// A value that may be missing, the empty object where it is.
pub open spec fn or_empty_object(parsed: Option<Value>) -> Value {
    match parsed {
        Some(value) => value,
        None => json_object(Map::empty()),
    }
}

/// The input that the text of a tool call's arguments stands for: what it spells, and the empty
/// object where it spells nothing.
pub open spec fn tool_input(arguments: Seq<char>) -> Value {
    or_empty_object(json_parsed(arguments))
}

/// Puts the empty object, which `{}` spells too, in the place of a value that is missing.
pub fn value_or_empty_object(parsed: Option<Value>) -> (r: Value)
    ensures
        r == or_empty_object(parsed),
        parsed is None ==> json_members(r) == Some(Map::<Seq<char>, Value>::empty())
            && json_parsed("{}"@) == Some(r),
{
    match parsed {
        Some(value) => value,
        None => empty_object(),
    }
}

/// Reads the arguments of a tool call. Arguments that are not JSON count as an empty object.
pub fn parse_tool_input(arguments: &str) -> (r: Value)
    ensures
        r == tool_input(arguments@),
        json_parsed(arguments@) is None ==> json_members(r) == Some(
            Map::<Seq<char>, Value>::empty(),
        ),
{
    value_or_empty_object(parse(arguments))
}

} // verus!
