//! What reading request headers comes to, said of the headers themselves.
use crate::providers::anthropic::client::CacheControlView;
use crate::providers::anthropic::headers::{
    cache_control_for, cache_control_outcome, cache_key_names, cache_ttl_names, header_text,
    header_value_outcome, is_header, optional_header_value_outcome,
};
use crate::text::{blank, same_ignoring_case, trimmed, trimmed_is_empty_iff_blank};
use vstd::prelude::*;

verus! {

/// There is a header of that name, whatever the case of its ASCII letters.
pub open spec fn named(headers: Map<String, String>, name: String, key: Seq<char>) -> bool {
    headers.contains_key(name) && same_ignoring_case(name@, key)
}

/// The key gives nothing: no header is named so, or one that is holds nothing but white space.
pub open spec fn nothing_under(headers: Map<String, String>, key: Seq<char>) -> bool {
    ||| forall|name: String| !(#[trigger] named(headers, name, key))
    ||| exists|name: String| #[trigger] named(headers, name, key) && blank(headers[name]@)
}

/// None of the keys gives anything.
pub open spec fn nothing_under_any(headers: Map<String, String>, keys: Seq<Seq<char>>) -> bool {
    forall|i: int| 0 <= i < keys.len() ==> nothing_under(headers, #[trigger] keys[i])
}

/// The text of a header value is missing exactly if the value is blank, and is otherwise the value
/// without the white space around it.
pub proof fn header_text_is_the_trimmed_value(value: Seq<char>)
    ensures
        header_text(value) is None <==> blank(value),
        header_text(value) matches Some(text) ==> text == trimmed(value),
{
    trimmed_is_empty_iff_blank(value);
}

/// A lookup gives the trimmed value of a header that is named by one of the keys and is not blank,
/// the keys before that one giving nothing; it gives nothing only where none of the keys does.
pub proof fn lookup_gives_the_first_key_with_text(
    headers: Map<String, String>,
    keys: Seq<Seq<char>>,
    result: Option<Seq<char>>,
)
    requires
        header_value_outcome(headers, keys, result),
    ensures
        match result {
            Some(text) => exists|i: int, name: String|
                {
                    &&& 0 <= i < keys.len()
                    &&& #[trigger] named(headers, name, keys[i])
                    &&& !blank(headers[name]@)
                    &&& text == trimmed(headers[name]@)
                    &&& nothing_under_any(headers, keys.take(i))
                },
            None => nothing_under_any(headers, keys),
        },
    decreases keys.len(), 1int,
{
    if keys.len() > 0 {
        let first = keys.first();
        let rest = keys.drop_first();
        if forall|name: String| !is_header(headers, name, first) {
            assert forall|name: String| !(#[trigger] named(headers, name, first)) by {
                assert(!is_header(headers, name, first));
            }
            assert(nothing_under(headers, first));
            lookup_after_nothing(headers, keys, result);
        } else {
            let name = choose|name: String| #[trigger]
                is_header(headers, name, first) && (match header_text(headers[name]@) {
                    Some(text) => result == Some(text),
                    None => header_value_outcome(headers, rest, result),
                });
            header_text_is_the_trimmed_value(headers[name]@);
            assert(named(headers, name, first));
            if header_text(headers[name]@) is Some {
                assert(named(headers, name, keys[0]));
                assert(nothing_under_any(headers, keys.take(0)));
            } else {
                assert(nothing_under(headers, first));
                lookup_after_nothing(headers, keys, result);
            }
        }
    }
}

/// The step over a key that gives nothing.
proof fn lookup_after_nothing(
    headers: Map<String, String>,
    keys: Seq<Seq<char>>,
    result: Option<Seq<char>>,
)
    requires
        keys.len() > 0,
        nothing_under(headers, keys.first()),
        header_value_outcome(headers, keys.drop_first(), result),
    ensures
        match result {
            Some(text) => exists|i: int, name: String|
                {
                    &&& 0 <= i < keys.len()
                    &&& #[trigger] named(headers, name, keys[i])
                    &&& !blank(headers[name]@)
                    &&& text == trimmed(headers[name]@)
                    &&& nothing_under_any(headers, keys.take(i))
                },
            None => nothing_under_any(headers, keys),
        },
    decreases keys.len(), 0int,
{
    let rest = keys.drop_first();
    lookup_gives_the_first_key_with_text(headers, rest, result);
    if let Some(text) = result {
        let (i, name) = choose|i: int, name: String|
            {
                &&& 0 <= i < rest.len()
                &&& #[trigger] named(headers, name, rest[i])
                &&& !blank(headers[name]@)
                &&& text == trimmed(headers[name]@)
                &&& nothing_under_any(headers, rest.take(i))
            };
        assert(named(headers, name, keys[i + 1]));
        assert forall|j: int| 0 <= j < keys.take(i + 1).len() implies nothing_under(
            headers,
            #[trigger] keys.take(i + 1)[j],
        ) by {
            if j > 0 {
                assert(rest.take(i)[j - 1] == keys[j]);
            }
        }
    } else {
        assert forall|j: int| 0 <= j < keys.len() implies nothing_under(
            headers,
            #[trigger] keys[j],
        ) by {
            if j > 0 {
                assert(rest[j - 1] == keys[j]);
            }
        }
    }
}

/// Without headers a lookup gives nothing, and with headers it is a lookup in them.
pub proof fn without_headers_there_is_nothing(
    headers: Option<Map<String, String>>,
    keys: Seq<Seq<char>>,
    result: Option<Seq<char>>,
)
    requires
        optional_header_value_outcome(headers, keys, result),
    ensures
        match headers {
            Some(map) => header_value_outcome(map, keys, result),
            None => result is None,
        },
{
}

/// A cache key, whatever it is, asks for an ephemeral mark with the time to live that is given;
/// without a key there is no mark, whatever the time to live.
pub proof fn any_cache_key_asks_for_the_same_mark(
    key: Option<Seq<char>>,
    ttl: Option<Seq<char>>,
    mark: Option<CacheControlView>,
)
    requires
        mark == cache_control_for(key, ttl),
    ensures
        mark is Some <==> key is Some,
        mark matches Some(mark) ==> mark.type_ == "ephemeral"@ && mark.ttl == ttl,
{
}

/// The headers that ask for a mark are four, consulted in this order, and three others say for how
/// long. There is a mark exactly if the first lookup succeeds, and its time to live is what the
/// second gives.
pub proof fn marks_come_from_these_headers(
    headers: Option<Map<String, String>>,
    result: Option<CacheControlView>,
)
    requires
        cache_control_outcome(headers, result),
    ensures
        ({
            let key_names = seq![
                "x-prompt-cache-key"@,
                "prompt_cache_key"@,
                "prompt-cache-key"@,
                "session_id"@,
            ];
            let ttl_names = seq!["x-prompt-cache-ttl"@, "prompt_cache_ttl"@, "prompt-cache-ttl"@];
            match headers {
                Some(map) => exists|key: Option<Seq<char>>, ttl: Option<Seq<char>>|
                    {
                        &&& #[trigger] header_value_outcome(map, key_names, key)
                        &&& #[trigger] header_value_outcome(map, ttl_names, ttl)
                        &&& result is Some <==> key is Some
                        &&& result matches Some(mark) ==> mark.type_ == "ephemeral"@ && mark.ttl
                            == ttl
                    },
                None => result is None,
            }
        }),
{
    let (key, ttl) = choose|key: Option<Seq<char>>, ttl: Option<Seq<char>>|
        {
            &&& #[trigger] optional_header_value_outcome(headers, cache_key_names(), key)
            &&& #[trigger] optional_header_value_outcome(headers, cache_ttl_names(), ttl)
            &&& result == cache_control_for(key, ttl)
        };
    if let Some(map) = headers {
        assert(header_value_outcome(map, cache_key_names(), key));
        assert(header_value_outcome(map, cache_ttl_names(), ttl));
    }
}

} // verus!
