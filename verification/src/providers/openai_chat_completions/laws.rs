//! What holds of every request and of every whole response.
use crate::language_model::ContentView;
use crate::providers::openai_chat_completions::language_model::{
    choice_contents, content_text, generate_request, joined_text, response_contents,
    stream_request, stream_settings,
};
use crate::providers::openai_chat_completions::prompt_caching::{
    ephemeral, is_prompt_text, mark_position, marked_message, marked_messages,
    marked_part, marked_parts, openrouter_anthropic, part_mark, some_part_marked, spoken_by,
    with_prompt_caching,
};
use crate::providers::openai_chat_completions::types::{
    ChatCompletionsOptionsView, ChatContentView, ChatMessageView, PartView, Role,
};
use crate::sequences::{
    first_where, first_where_finds, first_where_is, total, total_of_update, total_of_zeros,
};
use vstd::prelude::*;

verus! {

/// The cache marks on a part.
pub open spec fn part_marks() -> spec_fn(PartView) -> nat {
    |part: PartView|
        if part_mark(part) is Some {
            1nat
        } else {
            0nat
        }
}

/// The cache marks in a message.
pub open spec fn message_marks() -> spec_fn(ChatMessageView) -> nat {
    |message: ChatMessageView|
        match message.content {
            Some(ChatContentView::Parts(parts)) => total(parts, part_marks()),
            _ => 0nat,
        }
}

/// Marking parts that have been marked changes nothing.
proof fn marked_parts_settle(parts: Seq<PartView>)
    ensures
        marked_parts(marked_parts(parts)) == marked_parts(parts),
{
    let i = first_where(parts, is_prompt_text());
    first_where_finds(parts, is_prompt_text());
    if !some_part_marked(parts) && i < parts.len() {
        let marked = marked_parts(parts);
        assert(part_mark(marked[i]) is Some);
        assert(some_part_marked(marked));
    }
}

/// Marking a message that has been marked changes nothing.
pub proof fn marking_a_message_twice_is_marking_it_once(message: ChatMessageView)
    ensures
        marked_message(marked_message(message)) == marked_message(message),
{
    match message.content {
        Some(ChatContentView::Text(text)) => {
            let parts = seq![
                PartView::Text { text, cache_control: Some(ephemeral()), extra: Map::empty() },
            ];
            assert(part_mark(parts[0]) is Some);
            assert(some_part_marked(parts));
        },
        Some(ChatContentView::Parts(parts)) => {
            marked_parts_settle(parts);
        },
        None => {},
    }
}

/// Marking changes no role, so the same message is chosen again.
proof fn mark_position_settles(messages: Seq<ChatMessageView>)
    ensures
        0 <= mark_position(messages) <= messages.len(),
        mark_position(marked_messages(messages)) == mark_position(messages),
{
    let marked = marked_messages(messages);
    let system = first_where(messages, spoken_by(Role::System));
    let user = first_where(messages, spoken_by(Role::User));
    first_where_finds(messages, spoken_by(Role::System));
    first_where_finds(messages, spoken_by(Role::User));
    assert forall|j: int| 0 <= j < messages.len() implies (#[trigger] marked[j]).role
        == messages[j].role by {}
    assert forall|j: int| 0 <= j < system implies !spoken_by(Role::System)(#[trigger] marked[j]) by {
        assert(!spoken_by(Role::System)(messages[j]));
    }
    assert forall|j: int| 0 <= j < user implies !spoken_by(Role::User)(#[trigger] marked[j]) by {
        assert(!spoken_by(Role::User)(messages[j]));
    }
    if system < messages.len() {
        assert(marked[system].role == messages[system].role);
    }
    if user < messages.len() {
        assert(marked[user].role == messages[user].role);
    }
    first_where_is(marked, spoken_by(Role::System), system);
    first_where_is(marked, spoken_by(Role::User), user);
}

/// Asking for prompt caching a second time changes nothing.
pub proof fn caching_twice_is_caching_once(
    provider_name: Seq<char>,
    options: ChatCompletionsOptionsView,
)
    ensures
        with_prompt_caching(provider_name, with_prompt_caching(provider_name, options))
            == with_prompt_caching(provider_name, options),
{
    let marked = marked_messages(options.messages);
    let i = mark_position(options.messages);
    mark_position_settles(options.messages);
    if i < options.messages.len() {
        marking_a_message_twice_is_marking_it_once(options.messages[i]);
        assert(marked[i] == marked_message(options.messages[i]));
    }
    assert(marked_messages(marked) =~= marked);
}

/// A request to another provider than OpenRouter, or for a model that is not Anthropic's, is left
/// alone.
pub proof fn other_requests_are_left_alone(
    provider_name: Seq<char>,
    options: ChatCompletionsOptionsView,
)
    requires
        !openrouter_anthropic(provider_name, options.model),
    ensures
        with_prompt_caching(provider_name, options) == options,
{
}

/// Marking parts does not change their text.
proof fn marked_parts_keep_text(parts: Seq<PartView>, i: int)
    requires
        0 <= i < parts.len(),
    ensures
        joined_text(parts.update(i, marked_part(parts[i]))) == joined_text(parts),
    decreases parts.len(),
{
    let marked = parts.update(i, marked_part(parts[i]));
    if i == parts.len() - 1 {
        assert(marked.drop_last() =~= parts.drop_last());
    } else {
        marked_parts_keep_text(parts.drop_last(), i);
        assert(marked.drop_last() =~= parts.drop_last().update(i, marked_part(parts[i])));
        assert(marked.last() == parts.last());
    }
}

/// The part without its cache mark.
pub open spec fn unmarked_part(part: PartView) -> PartView {
    match part {
        PartView::Text { text, extra, .. } => PartView::Text { text, cache_control: None, extra },
        PartView::ImageUrl { url, .. } => PartView::ImageUrl { url, cache_control: None },
        PartView::InputAudio { data, format, .. } => PartView::InputAudio {
            data,
            format,
            cache_control: None,
        },
        PartView::File { file_id, .. } => PartView::File { file_id, cache_control: None },
    }
}

/// The parts of a message without their cache marks. Plain text counts as one part.
pub open spec fn unmarked_parts(content: ChatContentView) -> Seq<PartView> {
    match content {
        ChatContentView::Text(text) => seq![
            PartView::Text { text, cache_control: None, extra: Map::empty() },
        ],
        ChatContentView::Parts(parts) => parts.map_values(|part: PartView| unmarked_part(part)),
    }
}

/// The message without its cache marks, its content being in parts.
pub open spec fn unmarked_message(message: ChatMessageView) -> ChatMessageView {
    ChatMessageView {
        content: match message.content {
            Some(content) => Some(ChatContentView::Parts(unmarked_parts(content))),
            None => None,
        },
        ..message
    }
}

/// Marking changes nothing of a message but a mark: but for marks, and for plain text that becomes
/// one part, the message stays as it is, and so does its text.
pub proof fn marking_changes_a_mark_alone(message: ChatMessageView)
    ensures
        unmarked_message(marked_message(message)) == unmarked_message(message),
        content_text(marked_message(message).content) == content_text(message.content),
{
    match message.content {
        Some(ChatContentView::Text(text)) => {
            let parts = seq![
                PartView::Text { text, cache_control: Some(ephemeral()), extra: Map::empty() },
            ];
            assert(parts.drop_last() =~= Seq::empty());
            assert(joined_text(parts.drop_last()) =~= Seq::empty());
            assert(joined_text(parts) =~= text);
            assert(unmarked_parts(ChatContentView::Parts(parts)) =~= unmarked_parts(
                ChatContentView::Text(text),
            ));
        },
        Some(ChatContentView::Parts(parts)) => {
            let i = first_where(parts, is_prompt_text());
            first_where_finds(parts, is_prompt_text());
            if !some_part_marked(parts) && i < parts.len() {
                marked_parts_keep_text(parts, i);
            }
            assert(unmarked_parts(ChatContentView::Parts(marked_parts(parts))) =~= unmarked_parts(
                ChatContentView::Parts(parts),
            ));
        },
        None => {},
    }
}

/// Prompt caching changes one message at most, the one chosen for the mark, and nothing of it but
/// a mark; the text of every message, the number and order of messages, the model and the stream
/// settings stay.
pub proof fn caching_keeps_the_conversation(
    provider_name: Seq<char>,
    options: ChatCompletionsOptionsView,
)
    ensures
        ({
            let cached = with_prompt_caching(provider_name, options);
            &&& (ChatCompletionsOptionsView { messages: options.messages, ..cached }) == options
            &&& cached.messages.len() == options.messages.len()
            &&& forall|j: int|
                0 <= j < options.messages.len() ==> {
                    &&& j != mark_position(options.messages) ==> #[trigger] cached.messages[j]
                        == options.messages[j]
                    &&& unmarked_message(cached.messages[j]) == unmarked_message(
                        options.messages[j],
                    )
                    &&& content_text(cached.messages[j].content) == content_text(
                        options.messages[j].content,
                    )
                }
        }),
{
    let i = mark_position(options.messages);
    mark_position_settles(options.messages);
    if i < options.messages.len() {
        marking_changes_a_mark_alone(options.messages[i]);
    }
}

/// A message with a mark gets no other.
pub proof fn marks_are_not_doubled(message: ChatMessageView)
    requires
        message_marks()(message) > 0,
    ensures
        marked_message(message) == message,
{
    if let Some(ChatContentView::Parts(parts)) = message.content {
        if !some_part_marked(parts) {
            assert forall|j: int| 0 <= j < parts.len() implies part_marks()(#[trigger] parts[j])
                == 0 by {}
            total_of_zeros(parts, part_marks());
        }
    }
}

/// Prompt caching adds one mark at most.
pub proof fn caching_adds_one_mark_at_most(
    provider_name: Seq<char>,
    options: ChatCompletionsOptionsView,
)
    ensures
        total(options.messages, message_marks()) <= total(
            with_prompt_caching(provider_name, options).messages,
            message_marks(),
        ) <= total(options.messages, message_marks()) + 1,
{
    let i = mark_position(options.messages);
    mark_position_settles(options.messages);
    if i < options.messages.len() {
        let message = options.messages[i];
        let marked = marked_message(message);
        if message_marks()(message) > 0 {
            marks_are_not_doubled(message);
        } else {
            match message.content {
                Some(ChatContentView::Text(text)) => {
                    let parts = seq![
                        PartView::Text {
                            text,
                            cache_control: Some(ephemeral()),
                            extra: Map::empty(),
                        },
                    ];
                    assert(parts.drop_last() =~= Seq::empty());
                    assert(total(parts.drop_last(), part_marks()) == 0);
                    assert(total(parts, part_marks()) == 1);
                },
                Some(ChatContentView::Parts(parts)) => {
                    let at = first_where(parts, is_prompt_text());
                    first_where_finds(parts, is_prompt_text());
                    if at < parts.len() {
                        total_of_update(parts, part_marks(), at, marked_part(parts[at]));
                    }
                },
                None => {},
            }
        }
        assert(message_marks()(message) <= message_marks()(marked) <= message_marks()(message) + 1);
        total_of_update(options.messages, message_marks(), i, marked);
    }
}

/// Every request is for the model at hand, and a request for a stream is the request for a whole
/// answer but for the stream settings.
pub proof fn requests_keep_the_model(
    provider_name: Seq<char>,
    model: Seq<char>,
    chat_options: ChatCompletionsOptionsView,
)
    ensures
        generate_request(provider_name, model, chat_options).model == model,
        stream_request(provider_name, model, chat_options).model == model,
        stream_request(provider_name, model, chat_options) == (ChatCompletionsOptionsView {
            stream: Some(true),
            stream_options: Some(stream_settings()),
            ..generate_request(provider_name, model, chat_options)
        }),
{
}

/// The answers of a response are converted one by one, in order.
pub proof fn responses_are_converted_piecewise(a: Seq<ChatMessageView>, b: Seq<ChatMessageView>)
    ensures
        response_contents(a + b) == response_contents(a) + response_contents(b),
    decreases b.len(),
{
    if b.len() == 0 {
        assert(a + b =~= a);
        assert(response_contents(a) + response_contents(b) =~= response_contents(a));
    } else {
        responses_are_converted_piecewise(a, b.drop_last());
        assert((a + b).drop_last() =~= a + b.drop_last());
        assert((a + b).last() == b.last());
        assert(response_contents(a + b) =~= response_contents(a) + response_contents(b));
    }
}

/// What a response gives is text that is not empty and tool calls, and nothing else.
pub proof fn responses_hold_text_and_tool_calls(choices: Seq<ChatMessageView>)
    ensures
        forall|i: int|
            0 <= i < response_contents(choices).len() ==> match #[trigger] response_contents(
                choices,
            )[i] {
                ContentView::Text(text) => text.len() > 0,
                ContentView::ToolCall(_) => true,
                _ => false,
            },
    decreases choices.len(),
{
    if choices.len() > 0 {
        responses_hold_text_and_tool_calls(choices.drop_last());
        let earlier = response_contents(choices.drop_last());
        let added = choice_contents(choices.last());
        assert forall|i: int| 0 <= i < response_contents(choices).len() implies match
            #[trigger] response_contents(choices)[i] {
            ContentView::Text(text) => text.len() > 0,
            ContentView::ToolCall(_) => true,
            _ => false,
        } by {
            if i < earlier.len() {
                assert(response_contents(choices)[i] == earlier[i]);
            } else {
                assert(response_contents(choices)[i] == added[i - earlier.len()]);
            }
        }
    }
}

} // verus!
