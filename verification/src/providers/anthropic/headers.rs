//! Prompt caching as asked for by request headers.
use crate::providers::anthropic::client::{AnthropicCacheControl, CacheControlView};
use crate::sequences::{opt_view, seq_view};
use crate::text::{
    blank, same_ignoring_case, trimmed, trimmed_is_empty_iff_blank, trimmed_is_tight,
};
use std::collections::hash_map::Iter;
use std::collections::HashMap;
use vstd::prelude::*;
use vstd::std_specs::iter::IteratorSpec;

verus! {

/// `HashMap::iter` on string keys: visits the entries of the map, all of them and nothing else.
/// The order is left open.
#[verifier::external_body]
fn entries_of<'a>(headers: &'a HashMap<String, String>) -> (r: Iter<'a, String, String>)
    ensures
        IteratorSpec::decrease(&r) is Some,
        IteratorSpec::initial_value_relation(&r, &r),
        forall|i: int|
            #![trigger r.remaining()[i]]
            0 <= i < r.remaining().len() ==> headers@.contains_key(*r.remaining()[i].0)
                && headers@[*r.remaining()[i].0] == *r.remaining()[i].1,
        forall|name: String| #[trigger]
            headers@.contains_key(name) ==> r.remaining().contains((&name, &headers@[name])),
{
    headers.iter()
}

/// `name` is a header of the map, and it is `key` but for the case of ASCII letters.
pub open spec fn is_header(headers: Map<String, String>, name: String, key: Seq<char>) -> bool {
    headers.contains_key(name) && same_ignoring_case(name@, key)
}

/// The header that a walk over the map comes upon first among those named `key`, if there is one.
fn find_header<'a>(headers: &'a HashMap<String, String>, key: &str) -> (r: Option<&'a String>)
    ensures
        match r {
            Some(value) => exists|name: String| #[trigger]
                is_header(headers@, name, key@) && headers@[name] == *value,
            None => forall|name: String| !is_header(headers@, name, key@),
        },
{
    let entries = entries_of(headers);
    for entry in walk: entries
        invariant
            walk.seq() == entries.remaining(),
            forall|i: int|
                #![trigger walk.seq()[i]]
                0 <= i < walk.seq().len() ==> headers@.contains_key(*walk.seq()[i].0)
                    && headers@[*walk.seq()[i].0] == *walk.seq()[i].1,
            forall|name: String| #[trigger]
                headers@.contains_key(name) ==> walk.seq().contains((&name, &headers@[name])),
            forall|i: int|
                0 <= i < walk.index() ==> !same_ignoring_case((#[trigger] walk.seq()[i]).0@, key@),
    {
        let (name, value) = entry;
        if name.as_str().eq_ignore_ascii_case(key) {
            assert(is_header(headers@, *name, key@));
            return Some(value);
        }
    }
    None
}

/// The non-blank text of a header value, without the white space around it.
pub open spec fn header_text(value: Seq<char>) -> Option<Seq<char>> {
    if trimmed(value).len() > 0 {
        Some(trimmed(value))
    } else {
        None
    }
}

/// `result` is an outcome of looking the keys up in turn: for each key some header of that name is
/// taken, and the first that is not blank gives the result.
///
/// Where several headers differ from each other in case alone, any of them may be the one taken.
pub open spec fn header_value_outcome(
    headers: Map<String, String>,
    keys: Seq<Seq<char>>,
    result: Option<Seq<char>>,
) -> bool
    decreases keys.len(),
{
    if keys.len() == 0 {
        result is None
    } else if forall|name: String| !is_header(headers, name, keys.first()) {
        header_value_outcome(headers, keys.drop_first(), result)
    } else {
        exists|name: String| #[trigger]
            is_header(headers, name, keys.first()) && (match header_text(headers[name]@) {
                Some(text) => result == Some(text),
                None => header_value_outcome(headers, keys.drop_first(), result),
            })
    }
}

/// As `header_value_outcome`, where there may be no headers at all.
pub open spec fn optional_header_value_outcome(
    headers: Option<Map<String, String>>,
    keys: Seq<Seq<char>>,
    result: Option<Seq<char>>,
) -> bool {
    match headers {
        Some(map) => header_value_outcome(map, keys, result),
        None => result is None,
    }
}

/// No two headers differ in the case of ASCII letters alone.
pub open spec fn unambiguous(headers: Map<String, String>) -> bool {
    forall|a: String, b: String|
        #![trigger headers.contains_key(a), headers.contains_key(b)]
        headers.contains_key(a) && headers.contains_key(b) && same_ignoring_case(a@, b@) ==> a == b
}

/// The text of one header value: trimmed, and nothing where it is blank.
pub fn header_value_text(value: &str) -> (r: Option<String>)
    ensures
        opt_view(r) == header_text(value@),
{
    let text = value.trim();
    if text.is_empty() {
        None
    } else {
        Some(text.to_owned())
    }
}

/// The value of the first of `keys` that names a header with a value that is not blank. Header
/// names are compared without regard to the case of ASCII letters, and the value is trimmed.
pub fn extract_header_value(headers: Option<&HashMap<String, String>>, keys: &[&str]) -> (r: Option<
    String,
>)
    ensures
        optional_header_value_outcome(
            match headers {
                Some(map) => Some(map@),
                None => None,
            },
            seq_view(keys@),
            opt_view(r),
        ),
{
    let map = match headers {
        Some(map) => map,
        None => {
            return None;
        },
    };
    let ghost names = seq_view(keys@);
    let mut i: usize = 0;
    assert(names.skip(0) =~= names);
    while i < keys.len()
        invariant
            i <= keys@.len(),
            headers == Some(map),
            names == seq_view(keys@),
            forall|result: Option<Seq<char>>| #[trigger]
                header_value_outcome(map@, names.skip(i as int), result)
                    ==> header_value_outcome(map@, names, result),
        decreases keys@.len() - i,
    {
        let key = keys[i];
        let ghost ahead = names.skip(i as int);
        let found = find_header(map, key);
        assert(ahead.drop_first() =~= names.skip(i + 1));
        assert(ahead.first() == key@);
        if let Some(value) = found {
            let text = header_value_text(value.as_str());
            if text.is_some() {
                assert(header_value_outcome(map@, ahead, opt_view(text)));
                return text;
            }
        }
        assert forall|result: Option<Seq<char>>| #[trigger]
            header_value_outcome(map@, names.skip(i + 1), result) implies header_value_outcome(
            map@,
            names,
            result,
        ) by {
            assert(header_value_outcome(map@, ahead, result));
        }
        i += 1;
    }
    assert(names.skip(i as int).len() == 0);
    assert(header_value_outcome(map@, names.skip(i as int), None));
    None
}

/// The headers that ask for a prompt to be cached, in the order in which they are consulted.
pub open spec fn cache_key_names() -> Seq<Seq<char>> {
    seq!["x-prompt-cache-key"@, "prompt_cache_key"@, "prompt-cache-key"@, "session_id"@]
}

/// The headers that say for how long, in the order in which they are consulted.
pub open spec fn cache_ttl_names() -> Seq<Seq<char>> {
    seq!["x-prompt-cache-ttl"@, "prompt_cache_ttl"@, "prompt-cache-ttl"@]
}

/// The mark that a cache key and a time to live ask for: none without a key.
pub open spec fn cache_control_for(
    key: Option<Seq<char>>,
    ttl: Option<Seq<char>>,
) -> Option<CacheControlView> {
    match key {
        Some(_) => Some(CacheControlView { type_: "ephemeral"@, ttl }),
        None => None,
    }
}

/// `result` is an outcome of reading the cache key and the time to live from the headers.
pub open spec fn cache_control_outcome(
    headers: Option<Map<String, String>>,
    result: Option<CacheControlView>,
) -> bool {
    exists|key: Option<Seq<char>>, ttl: Option<Seq<char>>|
        {
            &&& #[trigger] optional_header_value_outcome(headers, cache_key_names(), key)
            &&& #[trigger] optional_header_value_outcome(headers, cache_ttl_names(), ttl)
            &&& result == cache_control_for(key, ttl)
        }
}

/// The mark that a cache key and a time to live ask for.
pub fn prompt_cache_control(key: Option<String>, ttl: Option<String>) -> (r: Option<
    AnthropicCacheControl,
>)
    ensures
        opt_view(r) == cache_control_for(opt_view(key), opt_view(ttl)),
{
    if key.is_none() {
        return None;
    }
    Some(AnthropicCacheControl { type_: "ephemeral".to_owned(), ttl })
}

/// The mark that the headers ask for: an ephemeral one where a header holds a cache key, with the
/// time to live that another header may hold.
pub fn prompt_cache_control_from_headers(headers: Option<&HashMap<String, String>>) -> (r: Option<
    AnthropicCacheControl,
>)
    ensures
        cache_control_outcome(
            match headers {
                Some(map) => Some(map@),
                None => None,
            },
            opt_view(r),
        ),
{
    let key_names: [&str; 4] = [
        "x-prompt-cache-key",
        "prompt_cache_key",
        "prompt-cache-key",
        "session_id",
    ];
    let ttl_names: [&str; 3] = ["x-prompt-cache-ttl", "prompt_cache_ttl", "prompt-cache-ttl"];
    let key = extract_header_value(headers, key_names.as_slice());
    let ttl = extract_header_value(headers, ttl_names.as_slice());
    assert(seq_view(key_names@) =~= cache_key_names());
    assert(seq_view(ttl_names@) =~= cache_ttl_names());
    prompt_cache_control(key, ttl)
}

/// Where no two headers differ in case alone, a lookup has one outcome.
pub proof fn unambiguous_headers_have_one_outcome(
    headers: Map<String, String>,
    keys: Seq<Seq<char>>,
    a: Option<Seq<char>>,
    b: Option<Seq<char>>,
)
    requires
        unambiguous(headers),
        header_value_outcome(headers, keys, a),
        header_value_outcome(headers, keys, b),
    ensures
        a == b,
    decreases keys.len(),
{
    if keys.len() == 0 {
    } else if forall|name: String| !is_header(headers, name, keys.first()) {
        unambiguous_headers_have_one_outcome(headers, keys.drop_first(), a, b);
    } else {
        let name = choose|name: String| #[trigger] is_header(headers, name, keys.first());
        assert forall|other: String| #[trigger] is_header(headers, other, keys.first()) implies other
            == name by {
            assert(same_ignoring_case(other@, name@));
        }
        if header_text(headers[name]@) is None {
            unambiguous_headers_have_one_outcome(headers, keys.drop_first(), a, b);
        }
    }
}

/// Whatever a lookup gives is trimmed and not blank.
pub proof fn looked_up_text_is_trimmed(
    headers: Map<String, String>,
    keys: Seq<Seq<char>>,
    result: Option<Seq<char>>,
)
    requires
        header_value_outcome(headers, keys, result),
    ensures
        result matches Some(text) ==> text.len() > 0 && !blank(text) && trimmed(text) == text,
    decreases keys.len(),
{
    if keys.len() == 0 {
    } else if forall|name: String| !is_header(headers, name, keys.first()) {
        looked_up_text_is_trimmed(headers, keys.drop_first(), result);
    } else {
        let name = choose|name: String| #[trigger]
            is_header(headers, name, keys.first()) && (match header_text(headers[name]@) {
                Some(text) => result == Some(text),
                None => header_value_outcome(headers, keys.drop_first(), result),
            });
        if header_text(headers[name]@) is None {
            looked_up_text_is_trimmed(headers, keys.drop_first(), result);
        } else {
            trimmed_is_tight(headers[name]@);
            trimmed_is_empty_iff_blank(trimmed(headers[name]@));
        }
    }
}

/// A header of that name exists and is not blank.
pub open spec fn has_text(headers: Map<String, String>, key: Seq<char>) -> bool {
    exists|name: String| #[trigger] is_header(headers, name, key) && !blank(headers[name]@)
}

/// One of the keys names a header that is not blank.
pub open spec fn some_key_has_text(headers: Map<String, String>, keys: Seq<Seq<char>>) -> bool {
    exists|i: int| 0 <= i < keys.len() && has_text(headers, #[trigger] keys[i])
}

/// Some key has text if the first has or one of the others.
proof fn some_key_has_text_splits(headers: Map<String, String>, keys: Seq<Seq<char>>)
    requires
        keys.len() > 0,
    ensures
        some_key_has_text(headers, keys) <==> has_text(headers, keys.first())
            || some_key_has_text(headers, keys.drop_first()),
{
    let rest = keys.drop_first();
    if some_key_has_text(headers, keys) {
        let i = choose|i: int| 0 <= i < keys.len() && has_text(headers, #[trigger] keys[i]);
        if i > 0 {
            assert(has_text(headers, rest[i - 1]));
        }
    }
    if has_text(headers, keys.first()) {
        assert(has_text(headers, keys[0]));
    }
    if some_key_has_text(headers, rest) {
        let i = choose|i: int| 0 <= i < rest.len() && has_text(headers, #[trigger] rest[i]);
        assert(has_text(headers, keys[i + 1]));
    }
}

/// Where no two headers differ in case alone, a lookup succeeds exactly if one of the keys names a
/// header that is not blank.
pub proof fn lookup_succeeds_iff_a_key_has_text(
    headers: Map<String, String>,
    keys: Seq<Seq<char>>,
    result: Option<Seq<char>>,
)
    requires
        unambiguous(headers),
        header_value_outcome(headers, keys, result),
    ensures
        result is Some <==> some_key_has_text(headers, keys),
    decreases keys.len(),
{
    if keys.len() > 0 {
        some_key_has_text_splits(headers, keys);
        if forall|name: String| !is_header(headers, name, keys.first()) {
            lookup_succeeds_iff_a_key_has_text(headers, keys.drop_first(), result);
            assert(!has_text(headers, keys.first()));
        } else {
            let name = choose|name: String| #[trigger] is_header(headers, name, keys.first());
            assert forall|other: String| #[trigger]
                is_header(headers, other, keys.first()) implies other == name by {
                assert(same_ignoring_case(other@, name@));
            }
            trimmed_is_empty_iff_blank(headers[name]@);
            if header_text(headers[name]@) is None {
                lookup_succeeds_iff_a_key_has_text(headers, keys.drop_first(), result);
            }
        }
    }
}

/// Where no two headers differ in case alone, the headers ask for a cache mark exactly if one of
/// the cache-key headers is not blank, and without headers nothing does.
pub proof fn mark_iff_cache_key(
    headers: Option<Map<String, String>>,
    result: Option<CacheControlView>,
)
    requires
        headers matches Some(map) ==> unambiguous(map),
        cache_control_outcome(headers, result),
    ensures
        result is Some <==> (headers matches Some(map) && some_key_has_text(
            map,
            cache_key_names(),
        )),
        result matches Some(mark) ==> mark.type_ == "ephemeral"@,
{
    let (key, ttl) = choose|key: Option<Seq<char>>, ttl: Option<Seq<char>>|
        {
            &&& #[trigger] optional_header_value_outcome(headers, cache_key_names(), key)
            &&& #[trigger] optional_header_value_outcome(headers, cache_ttl_names(), ttl)
            &&& result == cache_control_for(key, ttl)
        };
    if let Some(map) = headers {
        lookup_succeeds_iff_a_key_has_text(map, cache_key_names(), key);
    }
}

/// Where no two headers differ in case alone, the headers ask for one mark or for none, and always
/// for the same.
pub proof fn unambiguous_headers_ask_for_one_mark(
    headers: Option<Map<String, String>>,
    a: Option<CacheControlView>,
    b: Option<CacheControlView>,
)
    requires
        headers matches Some(map) ==> unambiguous(map),
        cache_control_outcome(headers, a),
        cache_control_outcome(headers, b),
    ensures
        a == b,
{
    let (key_a, ttl_a) = choose|key: Option<Seq<char>>, ttl: Option<Seq<char>>|
        {
            &&& #[trigger] optional_header_value_outcome(headers, cache_key_names(), key)
            &&& #[trigger] optional_header_value_outcome(headers, cache_ttl_names(), ttl)
            &&& a == cache_control_for(key, ttl)
        };
    let (key_b, ttl_b) = choose|key: Option<Seq<char>>, ttl: Option<Seq<char>>|
        {
            &&& #[trigger] optional_header_value_outcome(headers, cache_key_names(), key)
            &&& #[trigger] optional_header_value_outcome(headers, cache_ttl_names(), ttl)
            &&& b == cache_control_for(key, ttl)
        };
    if let Some(map) = headers {
        unambiguous_headers_have_one_outcome(map, cache_key_names(), key_a, key_b);
        unambiguous_headers_have_one_outcome(map, cache_ttl_names(), ttl_a, ttl_b);
    }
}

} // verus!
