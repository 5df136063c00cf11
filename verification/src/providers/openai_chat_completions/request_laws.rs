//! What a request holds, said of the request and what it was made from.
use crate::providers::openai_chat_completions::language_model::{generate_request, stream_request};
use crate::providers::openai_chat_completions::laws::{
    caching_keeps_the_conversation, unmarked_message,
};
use crate::providers::openai_chat_completions::prompt_caching::{
    is_prompt_text, mark_position, marked_message, openrouter_anthropic, part_mark,
    some_part_marked, spoken_by, with_prompt_caching,
};
use crate::providers::openai_chat_completions::types::{
    CacheControlView, ChatCompletionsOptionsView, ChatContentView, ChatMessageView, PartView, Role,
};
use crate::sequences::{first_where, first_where_finds, first_where_is};
use crate::text::{blank, same_ignoring_case};
use vstd::prelude::*;

verus! {

/// The part carries a cache mark.
pub open spec fn carries_mark(part: PartView) -> bool {
    match part {
        PartView::Text { cache_control: Some(_), .. } => true,
        PartView::ImageUrl { cache_control: Some(_), .. } => true,
        PartView::InputAudio { cache_control: Some(_), .. } => true,
        PartView::File { cache_control: Some(_), .. } => true,
        _ => false,
    }
}

/// The part is the first that holds text which is not blank.
pub open spec fn speaks_first(parts: Seq<PartView>, k: int) -> bool {
    &&& 0 <= k < parts.len()
    &&& parts[k] matches PartView::Text { text, .. } && !blank(text)
    &&& forall|j: int|
        0 <= j < k ==> !(#[trigger] parts[j] matches PartView::Text { text, .. } && !blank(text))
}

/// `after` is `before` with an ephemeral mark where it can carry one: plain text that is not blank
/// has become one part with that text and the mark; of parts of which none carried a mark the first
/// that holds text which is not blank has the mark; everything else is as it was.
pub open spec fn marked_from(before: ChatMessageView, after: ChatMessageView) -> bool {
    &&& after.role == before.role
    &&& after.name == before.name
    &&& after.tool_calls == before.tool_calls
    &&& after.tool_call_id == before.tool_call_id
    &&& match before.content {
        Some(ChatContentView::Text(said)) => if blank(said) {
            after.content == before.content
        } else {
            &&& after.content matches Some(ChatContentView::Parts(parts))
            &&& parts.len() == 1
            &&& parts[0] matches PartView::Text { text, cache_control, extra }
            &&& text == said
            &&& cache_control == Some(CacheControlView { type_: "ephemeral"@, ttl: None })
            &&& extra == Map::<String, serde_json::Value>::empty()
        },
        Some(ChatContentView::Parts(given)) => {
            &&& after.content matches Some(ChatContentView::Parts(parts))
            &&& parts.len() == given.len()
            &&& forall|k: int|
                0 <= k < given.len() ==> #[trigger] parts[k] == (match given[k] {
                    PartView::Text { text, extra, .. } if speaks_first(given, k) && (forall|j: int|
                        0 <= j < given.len() ==> !carries_mark(#[trigger] given[j])) => {
                        PartView::Text {
                            text,
                            cache_control: Some(CacheControlView { type_: "ephemeral"@, ttl: None }),
                            extra,
                        }
                    },
                    other => other,
                })
        },
        None => after.content is None,
    }
}

/// Models of Anthropic's through OpenRouter are those whose provider is called so, in any case, and
/// whose name begins so.
pub proof fn openrouter_goes_by_its_name(provider_name: Seq<char>, model_name: Seq<char>)
    ensures
        openrouter_anthropic(provider_name, model_name) <==> same_ignoring_case(
            provider_name,
            "openrouter"@,
        ) && "anthropic/"@.len() <= model_name.len() && model_name.take(
            "anthropic/"@.len() as int,
        ) == "anthropic/"@,
{
    let prefix = "anthropic/"@;
    if prefix.len() <= model_name.len() {
        assert(model_name.take(prefix.len() as int) == model_name.subrange(0, prefix.len() as int));
    }
}

/// Parts are marked exactly if one of them, of whatever kind, carries a mark.
pub proof fn a_mark_on_any_part_counts(parts: Seq<PartView>)
    ensures
        some_part_marked(parts) <==> exists|i: int|
            0 <= i < parts.len() && carries_mark(#[trigger] parts[i]),
{
    assert forall|i: int| 0 <= i < parts.len() implies carries_mark(#[trigger] parts[i])
        == part_mark(parts[i]) is Some by {}
}

/// A message that is marked for caching carries the mark where it can, and is otherwise as it was.
pub proof fn a_message_is_marked_where_it_can_be(message: ChatMessageView)
    ensures
        marked_from(message, marked_message(message)),
{
    if let Some(ChatContentView::Parts(parts)) = message.content {
        let i = first_where(parts, is_prompt_text());
        first_where_finds(parts, is_prompt_text());
        a_mark_on_any_part_counts(parts);
        assert forall|k: int| 0 <= k < parts.len() implies is_prompt_text()(#[trigger] parts[k])
            == (parts[k] matches PartView::Text { text, .. } && !blank(text)) by {}
        assert forall|k: int| 0 <= k < parts.len() implies #[trigger] speaks_first(parts, k) == (k
            == i) by {
            if speaks_first(parts, k) {
                first_where_is(parts, is_prompt_text(), k);
            }
        }
    }
}

/// The request is one for a model of Anthropic's through OpenRouter.
pub open spec fn through_openrouter(
    provider_name: Seq<char>,
    options: ChatCompletionsOptionsView,
) -> bool {
    &&& same_ignoring_case(provider_name, "openrouter"@)
    &&& "anthropic/"@.is_prefix_of(options.model)
}

/// Where such a request has a system message, the first of them is marked, wherever user messages
/// stand, and no other message is changed, nor anything else.
pub proof fn the_first_system_message_is_marked(
    provider_name: Seq<char>,
    options: ChatCompletionsOptionsView,
    i: int,
)
    requires
        through_openrouter(provider_name, options),
        0 <= i < options.messages.len(),
        options.messages[i].role == Role::System,
        forall|j: int| 0 <= j < i ==> (#[trigger] options.messages[j]).role != Role::System,
    ensures
        ({
            let cached = with_prompt_caching(provider_name, options);
            &&& marked_from(options.messages[i], cached.messages[i])
            &&& cached.messages.len() == options.messages.len()
            &&& forall|j: int|
                0 <= j < options.messages.len() && j != i ==> #[trigger] cached.messages[j]
                    == options.messages[j]
            &&& cached.model == options.model
            &&& cached.stream == options.stream
            &&& cached.stream_options == options.stream_options
        }),
{
    assert forall|j: int| 0 <= j < i implies !spoken_by(Role::System)(
        #[trigger] options.messages[j],
    ) by {}
    first_where_is(options.messages, spoken_by(Role::System), i);
    assert(mark_position(options.messages) == i);
    a_message_is_marked_where_it_can_be(options.messages[i]);
}

/// Where such a request has no system message, the first user message is marked, and no other
/// message is changed, nor anything else.
pub proof fn without_a_system_message_the_first_user_message_is_marked(
    provider_name: Seq<char>,
    options: ChatCompletionsOptionsView,
    i: int,
)
    requires
        through_openrouter(provider_name, options),
        0 <= i < options.messages.len(),
        options.messages[i].role == Role::User,
        forall|j: int| 0 <= j < i ==> (#[trigger] options.messages[j]).role != Role::User,
        forall|j: int|
            0 <= j < options.messages.len() ==> (#[trigger] options.messages[j]).role
                != Role::System,
    ensures
        ({
            let cached = with_prompt_caching(provider_name, options);
            &&& marked_from(options.messages[i], cached.messages[i])
            &&& cached.messages.len() == options.messages.len()
            &&& forall|j: int|
                0 <= j < options.messages.len() && j != i ==> #[trigger] cached.messages[j]
                    == options.messages[j]
            &&& cached.model == options.model
            &&& cached.stream == options.stream
            &&& cached.stream_options == options.stream_options
        }),
{
    assert forall|j: int| 0 <= j < options.messages.len() implies !spoken_by(Role::System)(
        #[trigger] options.messages[j],
    ) by {}
    assert forall|j: int| 0 <= j < i implies !spoken_by(Role::User)(
        #[trigger] options.messages[j],
    ) by {}
    first_where_is(options.messages, spoken_by(Role::System), options.messages.len() as int);
    first_where_is(options.messages, spoken_by(Role::User), i);
    assert(mark_position(options.messages) == i);
    a_message_is_marked_where_it_can_be(options.messages[i]);
}

/// A request without system and user messages is left alone, and so is one to another provider or
/// for another model.
pub proof fn where_there_is_nothing_to_mark_nothing_changes(
    provider_name: Seq<char>,
    options: ChatCompletionsOptionsView,
)
    requires
        !through_openrouter(provider_name, options) || forall|j: int|
            0 <= j < options.messages.len() ==> (#[trigger] options.messages[j]).role
                != Role::System && options.messages[j].role != Role::User,
    ensures
        with_prompt_caching(provider_name, options) == options,
{
    if through_openrouter(provider_name, options) {
        assert forall|j: int| 0 <= j < options.messages.len() implies !spoken_by(Role::System)(
            #[trigger] options.messages[j],
        ) by {}
        assert forall|j: int| 0 <= j < options.messages.len() implies !spoken_by(Role::User)(
            #[trigger] options.messages[j],
        ) by {}
        first_where_is(options.messages, spoken_by(Role::System), options.messages.len() as int);
        first_where_is(options.messages, spoken_by(Role::User), options.messages.len() as int);
    }
}

/// A prepared request, for a whole or for a streamed answer, has as many messages as the caller
/// gave, and each of them is, but for cache marks, the caller's message at the same place. To
/// another provider than OpenRouter the messages are exactly the caller's.
pub proof fn prepared_requests_hold_the_conversation(
    provider_name: Seq<char>,
    model: Seq<char>,
    chat_options: ChatCompletionsOptionsView,
)
    ensures
        ({
            let whole = generate_request(provider_name, model, chat_options);
            let streamed = stream_request(provider_name, model, chat_options);
            &&& whole.messages.len() == chat_options.messages.len()
            &&& streamed.messages == whole.messages
            &&& forall|i: int|
                0 <= i < chat_options.messages.len() ==> unmarked_message(
                    #[trigger] whole.messages[i],
                ) == unmarked_message(chat_options.messages[i])
            &&& !same_ignoring_case(provider_name, "openrouter"@) ==> whole.messages
                == chat_options.messages
            &&& !"anthropic/"@.is_prefix_of(model) ==> whole.messages == chat_options.messages
        }),
{
    caching_keeps_the_conversation(
        provider_name,
        ChatCompletionsOptionsView { model, ..chat_options },
    );
}

/// A prepared request is for the model at hand, whatever model the caller's options name. One for a
/// whole answer keeps the caller's stream settings; one for a stream asks for a stream with token
/// counts and without obfuscation, whatever the caller's settings.
pub proof fn prepared_requests_are_for_the_model_at_hand(
    provider_name: Seq<char>,
    model: Seq<char>,
    chat_options: ChatCompletionsOptionsView,
)
    ensures
        ({
            let whole = generate_request(provider_name, model, chat_options);
            let streamed = stream_request(provider_name, model, chat_options);
            &&& whole.model == model
            &&& whole.stream == chat_options.stream
            &&& whole.stream_options == chat_options.stream_options
            &&& streamed.model == model
            &&& streamed.stream == Some(true)
            &&& streamed.stream_options matches Some(settings)
            &&& settings.include_usage == Some(true)
            &&& settings.include_obfuscation == Some(false)
        }),
{
}

/// A prepared request has the marks that prompt caching puts on the caller's messages for the model
/// at hand, and no others.
pub proof fn prepared_requests_are_marked_for_the_model_at_hand(
    provider_name: Seq<char>,
    model: Seq<char>,
    chat_options: ChatCompletionsOptionsView,
    for_the_model: ChatCompletionsOptionsView,
)
    requires
        for_the_model.model == model,
        for_the_model.messages == chat_options.messages,
    ensures
        generate_request(provider_name, model, chat_options).messages == with_prompt_caching(
            provider_name,
            for_the_model,
        ).messages,
        stream_request(provider_name, model, chat_options).messages == with_prompt_caching(
            provider_name,
            for_the_model,
        ).messages,
{
}

} // verus!
