//! What the library does with JSON values, said of the values themselves.
use crate::json::{
    json_members, json_object, json_parsed, or_empty_object, tool_input, without_member,
};
use serde_json::Value;
use vstd::prelude::*;

verus! {

/// Taking a member out leaves every other member of an object, and a value that is no object as it
/// is.
pub proof fn taking_a_member_out_leaves_the_others(value: Value, key: Seq<char>)
    ensures
        json_members(value) matches Some(members) ==> without_member(value, key) == json_object(
            Map::new(
                |other: Seq<char>| members.contains_key(other) && other != key,
                |other: Seq<char>| members[other],
            ),
        ),
        json_members(value) is None ==> without_member(value, key) == value,
{
    if let Some(members) = json_members(value) {
        assert(members.remove(key) =~= Map::new(
            |other: Seq<char>| members.contains_key(other) && other != key,
            |other: Seq<char>| members[other],
        ));
    }
}

/// The input of a tool is the value that the arguments spell; arguments that spell no value, and a
/// value that is missing, stand for the empty object.
pub proof fn arguments_are_read_or_empty(arguments: Seq<char>, parsed: Option<Value>)
    ensures
        json_parsed(arguments) matches Some(value) ==> tool_input(arguments) == value,
        json_parsed(arguments) is None ==> tool_input(arguments) == json_object(Map::empty()),
        parsed matches Some(value) ==> or_empty_object(parsed) == value,
        parsed is None ==> or_empty_object(parsed) == json_object(Map::empty()),
{
}

} // verus!
