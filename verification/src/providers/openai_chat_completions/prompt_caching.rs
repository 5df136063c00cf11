//! Prompt caching for Anthropic models that are reached through OpenRouter.
use crate::providers::openai_chat_completions::types::{
    CacheControl, CacheControlView, ChatCompletionsOptions, ChatCompletionsOptionsView,
    ChatContentView, ChatMessage, ChatMessageContent, ChatMessageContentPart,
    ChatMessageContentPartText, ChatMessageView, PartView, Role,
};
use crate::sequences::{first_where, first_where_finds, first_where_is, seq_view};
use crate::text::{blank, is_blank, same_ignoring_case, starts_with};
use std::collections::HashMap;
use vstd::prelude::*;

verus! {

/// The provider is OpenRouter, in whatever case it is written, and the model one of Anthropic's.
pub open spec fn openrouter_anthropic(provider_name: Seq<char>, model_name: Seq<char>) -> bool {
    same_ignoring_case(provider_name, "openrouter"@) && "anthropic/"@.is_prefix_of(model_name)
}

/// Whether a model of Anthropic's is asked for through OpenRouter.
pub fn is_openrouter_anthropic_model(provider_name: &str, model_name: &str) -> (r: bool)
    ensures
        r == openrouter_anthropic(provider_name@, model_name@),
{
    provider_name.eq_ignore_ascii_case("openrouter") && starts_with(model_name, "anthropic/")
}

/// The mark that is put on a prompt.
pub open spec fn ephemeral() -> CacheControlView {
    CacheControlView { type_: "ephemeral"@, ttl: None }
}

/// The cache mark on a part.
pub open spec fn part_mark(part: PartView) -> Option<CacheControlView> {
    match part {
        PartView::Text { cache_control, .. } => cache_control,
        PartView::ImageUrl { cache_control, .. } => cache_control,
        PartView::InputAudio { cache_control, .. } => cache_control,
        PartView::File { cache_control, .. } => cache_control,
    }
}

/// Some part carries a mark.
pub open spec fn some_part_marked(parts: Seq<PartView>) -> bool {
    exists|i: int| 0 <= i < parts.len() && part_mark(#[trigger] parts[i]) is Some
}

/// Text that is not blank.
pub open spec fn is_prompt_text() -> spec_fn(PartView) -> bool {
    |part: PartView|
        match part {
            PartView::Text { text, .. } => !blank(text),
            _ => false,
        }
}

/// The part with the mark, where it is text.
pub open spec fn marked_part(part: PartView) -> PartView {
    match part {
        PartView::Text { text, cache_control, extra } => PartView::Text {
            text,
            cache_control: Some(ephemeral()),
            extra,
        },
        _ => part,
    }
}

/// The parts with the mark on the first text that is not blank, unless some part is marked.
pub open spec fn marked_parts(parts: Seq<PartView>) -> Seq<PartView> {
    let i = first_where(parts, is_prompt_text());
    if !some_part_marked(parts) && i < parts.len() {
        parts.update(i, marked_part(parts[i]))
    } else {
        parts
    }
}

/// The content with the mark. Plain text becomes one marked part, unless it is blank.
pub open spec fn marked_content(content: ChatContentView) -> ChatContentView {
    match content {
        ChatContentView::Text(text) => if blank(text) {
            content
        } else {
            ChatContentView::Parts(
                seq![
                    PartView::Text { text, cache_control: Some(ephemeral()), extra: Map::empty() },
                ],
            )
        },
        ChatContentView::Parts(parts) => ChatContentView::Parts(marked_parts(parts)),
    }
}

/// The message with the mark on its content, where it has content.
pub open spec fn marked_message(message: ChatMessageView) -> ChatMessageView {
    ChatMessageView {
        content: match message.content {
            Some(content) => Some(marked_content(content)),
            None => None,
        },
        ..message
    }
}

/// The message comes from the given role.
pub open spec fn spoken_by(role: Role) -> spec_fn(ChatMessageView) -> bool {
    |message: ChatMessageView| message.role == role
}

/// The message that is to carry the mark: the first system message, or else the first user
/// message; the number of messages where there is neither.
pub open spec fn mark_position(messages: Seq<ChatMessageView>) -> int {
    let system = first_where(messages, spoken_by(Role::System));
    if system < messages.len() {
        system
    } else {
        first_where(messages, spoken_by(Role::User))
    }
}

/// The messages with the mark.
pub open spec fn marked_messages(messages: Seq<ChatMessageView>) -> Seq<ChatMessageView> {
    let i = mark_position(messages);
    if i < messages.len() {
        messages.update(i, marked_message(messages[i]))
    } else {
        messages
    }
}

/// The request with the mark, if it is one for an Anthropic model through OpenRouter.
pub open spec fn with_prompt_caching(
    provider_name: Seq<char>,
    options: ChatCompletionsOptionsView,
) -> ChatCompletionsOptionsView {
    if openrouter_anthropic(provider_name, options.model) {
        ChatCompletionsOptionsView { messages: marked_messages(options.messages), ..options }
    } else {
        options
    }
}

/// Whether some part carries a cache mark.
pub fn has_cache_control(parts: &[ChatMessageContentPart]) -> (r: bool)
    ensures
        r == some_part_marked(seq_view(parts@)),
{
    let ghost views = seq_view(parts@);
    let mut i: usize = 0;
    while i < parts.len()
        invariant
            i <= parts@.len(),
            views == seq_view(parts@),
            forall|j: int| 0 <= j < i ==> part_mark(#[trigger] views[j]) is None,
        decreases parts@.len() - i,
    {
        let marked = match &parts[i] {
            ChatMessageContentPart::Text(part) => part.cache_control.is_some(),
            ChatMessageContentPart::ImageUrl(part) => part.cache_control.is_some(),
            ChatMessageContentPart::InputAudio(part) => part.cache_control.is_some(),
            ChatMessageContentPart::File(part) => part.cache_control.is_some(),
        };
        assert(marked == part_mark(views[i as int]) is Some);
        if marked {
            return true;
        }
        i += 1;
    }
    false
}

/// The mark that is put on a prompt.
fn ephemeral_cache_control() -> (r: CacheControl)
    ensures
        r@ == ephemeral(),
{
    CacheControl { type_: "ephemeral".to_owned(), ttl: None }
}

/// Marks the first text that is not blank, unless some part is marked already.
fn mark_first_text_part(parts: &mut Vec<ChatMessageContentPart>)
    ensures
        seq_view(final(parts)@) == marked_parts(seq_view(old(parts)@)),
{
    if has_cache_control(parts.as_slice()) {
        return;
    }
    let ghost before = seq_view(parts@);
    let mut i: usize = 0;
    while i < parts.len()
        invariant
            i <= parts@.len(),
            seq_view(parts@) == before,
            before == seq_view(old(parts)@),
            !some_part_marked(before),
            forall|j: int| 0 <= j < i ==> !is_prompt_text()(#[trigger] before[j]),
        decreases parts@.len() - i,
    {
        if let ChatMessageContentPart::Text(part) = &mut parts[i] {
            if !is_blank(part.text.as_str()) {
                part.cache_control = Some(ephemeral_cache_control());
                proof {
                    first_where_is(before, is_prompt_text(), i as int);
                    assert(seq_view(parts@) =~= marked_parts(before));
                }
                return;
            }
        }
        assert(seq_view(parts@) =~= before);
        i += 1;
    }
    proof {
        first_where_is(before, is_prompt_text(), i as int);
    }
}

/// Marks the content of a message: plain text that is not blank becomes one marked part; of
/// several parts the first text that is not blank is marked, unless some part is marked already.
pub fn apply_ephemeral_cache_control(message: &mut ChatMessage)
    ensures
        final(message)@ == marked_message(old(message)@),
{
    match &mut message.content {
        Some(content) => {
            match content {
                ChatMessageContent::Text(text) => {
                    if is_blank(text.as_str()) {
                        return;
                    }
                    let mut prompt = String::new();
                    core::mem::swap(&mut prompt, text);
                    let parts = vec![
                        ChatMessageContentPart::Text(
                            ChatMessageContentPartText {
                                text: prompt,
                                cache_control: Some(ephemeral_cache_control()),
                                extra: HashMap::new(),
                            },
                        ),
                    ];
                    assert(seq_view(parts@) =~= seq![
                        PartView::Text {
                            text: prompt@,
                            cache_control: Some(ephemeral()),
                            extra: Map::empty(),
                        },
                    ]);
                    *content = ChatMessageContent::Parts(parts);
                },
                ChatMessageContent::Parts(parts) => {
                    mark_first_text_part(parts);
                },
            }
        },
        None => {},
    }
}

/// The first message of the given role; the number of messages where there is none.
fn position_of(messages: &Vec<ChatMessage>, role: Role) -> (r: usize)
    ensures
        r == first_where(seq_view(messages@), spoken_by(role)),
{
    let ghost views = seq_view(messages@);
    let mut i: usize = 0;
    while i < messages.len()
        invariant
            i <= messages@.len(),
            views == seq_view(messages@),
            forall|j: int| 0 <= j < i ==> !spoken_by(role)(#[trigger] views[j]),
        decreases messages@.len() - i,
    {
        if messages[i].role == role {
            proof {
                first_where_is(views, spoken_by(role), i as int);
            }
            return i;
        }
        assert(!spoken_by(role)(views[i as int]));
        i += 1;
    }
    proof {
        first_where_is(views, spoken_by(role), i as int);
    }
    i
}

/// Marks the system prompt of a request for an Anthropic model through OpenRouter, or its first
/// user message where there is no system prompt. Leaves every other request alone.
pub fn apply_openrouter_anthropic_prompt_caching(
    provider_name: &str,
    options: &mut ChatCompletionsOptions,
)
    ensures
        final(options)@ == with_prompt_caching(provider_name@, old(options)@),
        !openrouter_anthropic(provider_name@, old(options).model@) ==> *final(options) == *old(
            options,
        ),
{
    if !is_openrouter_anthropic_model(provider_name, options.model.as_str()) {
        return;
    }
    let ghost before = seq_view(options.messages@);
    let mut target = position_of(&options.messages, Role::System);
    if target == options.messages.len() {
        target = position_of(&options.messages, Role::User);
    }
    proof {
        first_where_finds(before, spoken_by(Role::System));
        first_where_finds(before, spoken_by(Role::User));
    }
    if target < options.messages.len() {
        apply_ephemeral_cache_control(&mut options.messages[target]);
        assert(seq_view(options.messages@) =~= marked_messages(before));
    }
}

} // verus!
