use llm_providers::providers::anthropic::headers::{
    extract_header_value, header_value_text, prompt_cache_control,
    prompt_cache_control_from_headers,
};
use std::collections::HashMap;

fn headers(entries: &[(&str, &str)]) -> HashMap<String, String> {
    entries
        .iter()
        .map(|(name, value)| (name.to_string(), value.to_string()))
        .collect()
}

#[test]
fn header_names_ignore_ascii_case() {
    let map = headers(&[("X-Trace-ID", "abc")]);
    assert_eq!(
        extract_header_value(Some(&map), &["x-trace-id"]),
        Some("abc".to_string())
    );
    let map = headers(&[("\u{c4}-key", "abc")]);
    assert_eq!(extract_header_value(Some(&map), &["\u{e4}-key"]), None);
    assert_eq!(
        extract_header_value(Some(&map), &["\u{c4}-KEY"]),
        Some("abc".to_string())
    );
}

#[test]
fn header_values_are_trimmed() {
    let map = headers(&[("key", " \tsome value\u{a0}\n")]);
    assert_eq!(
        extract_header_value(Some(&map), &["key"]),
        Some("some value".to_string())
    );
    assert_eq!(header_value_text("  a b  "), Some("a b".to_string()));
    assert_eq!(header_value_text(" \n "), None);
}

#[test]
fn keys_are_consulted_in_turn() {
    let map = headers(&[("first", "   "), ("second", "two"), ("third", "three")]);
    assert_eq!(
        extract_header_value(Some(&map), &["zeroth", "first", "second", "third"]),
        Some("two".to_string())
    );
    assert_eq!(
        extract_header_value(Some(&map), &["third", "second"]),
        Some("three".to_string())
    );
}

#[test]
fn nothing_is_found_where_there_is_nothing() {
    let map = headers(&[("first", ""), ("other", "value")]);
    assert_eq!(extract_header_value(Some(&map), &["first", "second"]), None);
    assert_eq!(extract_header_value(Some(&map), &[]), None);
    assert_eq!(extract_header_value(None, &["first"]), None);
}

#[test]
fn headers_that_differ_in_case_alone_may_both_be_taken() {
    let map = headers(&[("Key", "upper"), ("key", "lower")]);
    let value = extract_header_value(Some(&map), &["KEY"]);
    assert!(value == Some("upper".to_string()) || value == Some("lower".to_string()));
}

#[test]
fn cache_keys_ask_for_an_ephemeral_mark() {
    for name in [
        "x-prompt-cache-key",
        "prompt_cache_key",
        "prompt-cache-key",
        "session_id",
        "Session_ID",
    ] {
        let map = headers(&[(name, "abc")]);
        let mark = prompt_cache_control_from_headers(Some(&map)).expect("mark");
        assert_eq!(mark.type_, "ephemeral");
        assert_eq!(mark.ttl, None);
    }
}

#[test]
fn the_time_to_live_comes_from_its_own_header() {
    for name in ["x-prompt-cache-ttl", "prompt_cache_ttl", "prompt-cache-ttl"] {
        let map = headers(&[("session_id", "abc"), (name, " 1h ")]);
        let mark = prompt_cache_control_from_headers(Some(&map)).expect("mark");
        assert_eq!(mark.ttl, Some("1h".to_string()));
    }
}

#[test]
fn without_a_cache_key_there_is_no_mark() {
    assert_eq!(prompt_cache_control_from_headers(None), None);
    let map = headers(&[("x-prompt-cache-ttl", "1h"), ("session_id", "  ")]);
    assert_eq!(prompt_cache_control_from_headers(Some(&map)), None);
    assert_eq!(prompt_cache_control(None, Some("1h".to_string())), None);
    let mark = prompt_cache_control(Some("abc".to_string()), Some("5m".to_string()));
    assert_eq!(mark.and_then(|mark| mark.ttl), Some("5m".to_string()));
}

#[test]
fn the_same_headers_ask_for_the_same_mark() {
    let map = headers(&[("Session_ID", "abc"), ("prompt-cache-key", "def"), ("PROMPT_CACHE_TTL", "1h")]);
    let mark = prompt_cache_control_from_headers(Some(&map));
    assert_eq!(mark.as_ref().and_then(|mark| mark.ttl.clone()), Some("1h".to_string()));
    for _ in 0..20 {
        let copy: HashMap<String, String> =
            map.iter().map(|(name, value)| (name.clone(), value.clone())).collect();
        assert_eq!(prompt_cache_control_from_headers(Some(&copy)), mark);
    }
}
