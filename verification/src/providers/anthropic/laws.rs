//! What holds of every request that is built.
use crate::language_model::{LanguageModelOptionsView, ReasoningEffort};
use crate::messages::TaggedMessageView;
use crate::providers::anthropic::client::{
    AnthropicMessageDeltaUsage, AnthropicOptionsView, AnthropicUsage, CacheControlView,
    MessageParamView, SystemBlockView, SystemPromptView, UserBlockView, UserContentView,
};
use crate::providers::anthropic::conversions::{
    anthropic_request, converted_message, converted_messages, count_or_zero, delta_usage_of,
    has_user_text, marked_block, marked_blocks, marked_message, system_prompt, system_text,
    takes_mark, thinking_budget, usage_of, with_first_user_marked,
};
use crate::providers::anthropic::headers::{
    cache_control_outcome, cache_key_names, mark_iff_cache_key, some_key_has_text, unambiguous,
};
use crate::sequences::{
    first_where, first_where_finds, first_where_is, total, total_is_at_least, total_of_update,
    total_of_zeros,
};
use vstd::prelude::*;

verus! {

/// The cache marks on a block of a user message.
pub open spec fn user_block_marks() -> spec_fn(UserBlockView) -> nat {
    |block: UserBlockView|
        match block {
            UserBlockView::Text { cache_control: Some(_), .. } => 1nat,
            _ => 0nat,
        }
}

/// The cache marks in a message.
pub open spec fn message_marks() -> spec_fn(MessageParamView) -> nat {
    |message: MessageParamView|
        match message {
            MessageParamView::User { content: UserContentView::Blocks(blocks) } => total(
                blocks,
                user_block_marks(),
            ),
            _ => 0nat,
        }
}

/// The cache marks on a block of the system prompt.
pub open spec fn system_block_marks() -> spec_fn(SystemBlockView) -> nat {
    |block: SystemBlockView|
        if block.cache_control is Some {
            1nat
        } else {
            0nat
        }
}

/// The cache marks in a request.
pub open spec fn request_marks(request: AnthropicOptionsView) -> nat {
    (match request.system {
        Some(SystemPromptView::Blocks(blocks)) => total(blocks, system_block_marks()),
        _ => 0nat,
    }) + total(request.messages, message_marks())
}

/// The messages that come out of a conversation carry no marks.
proof fn converted_messages_are_unmarked(messages: Seq<TaggedMessageView>)
    ensures
        forall|i: int|
            0 <= i < converted_messages(messages).len() ==> message_marks()(
                #[trigger] converted_messages(messages)[i],
            ) == 0,
    decreases messages.len(),
{
    if messages.len() > 0 {
        converted_messages_are_unmarked(messages.drop_last());
        if let Some(message) = converted_message(messages.last().message) {
            if let MessageParamView::User { content: UserContentView::Blocks(blocks) } = message {
                total_of_zeros(blocks, user_block_marks());
            }
            assert(message_marks()(message) == 0);
        }
        let earlier = converted_messages(messages.drop_last());
        assert forall|i: int| 0 <= i < converted_messages(messages).len() implies message_marks()(
            #[trigger] converted_messages(messages)[i],
        ) == 0 by {
            if i < earlier.len() {
                assert(converted_messages(messages)[i] == earlier[i]);
            }
        }
    }
}

/// Marking a message that carries no mark and has text leaves it with one mark.
proof fn marking_adds_one(message: MessageParamView, mark: CacheControlView)
    requires
        has_user_text()(message),
        message_marks()(message) == 0,
    ensures
        message_marks()(marked_message(message, mark)) == 1,
{
    match message {
        MessageParamView::User { content: UserContentView::Text(text) } => {
            let blocks = seq![UserBlockView::Text { text, cache_control: Some(mark) }];
            assert(blocks.drop_last() =~= Seq::empty());
            assert(total(blocks.drop_last(), user_block_marks()) == 0);
            assert(total(blocks, user_block_marks()) == 1);
        },
        MessageParamView::User { content: UserContentView::Blocks(blocks) } => {
            let i = first_where(blocks, takes_mark());
            first_where_finds(blocks, takes_mark());
            total_is_at_least(blocks, user_block_marks(), i);
            total_of_update(blocks, user_block_marks(), i, marked_block(blocks[i], mark));
        },
        MessageParamView::Assistant { .. } => {},
    }
}

/// A request carries at most one cache mark: none unless a mark is asked for, and none where there
/// is neither a system prompt nor user text to carry it.
pub proof fn request_has_at_most_one_mark(
    options: LanguageModelOptionsView,
    mark: Option<CacheControlView>,
)
    ensures
        request_marks(anthropic_request(options, mark)) == (if mark is Some && (system_text(
            options.system,
            options.messages,
        ) is Some || first_where(converted_messages(options.messages), has_user_text())
            < converted_messages(options.messages).len()) {
            1nat
        } else {
            0nat
        }),
{
    let request = anthropic_request(options, mark);
    let messages = converted_messages(options.messages);
    converted_messages_are_unmarked(options.messages);
    total_of_zeros(messages, message_marks());
    if let Some(text) = system_text(options.system, options.messages) {
        if let Some(mark) = mark {
            let blocks = seq![SystemBlockView { text, cache_control: Some(mark) }];
            assert(system_prompt(text, Some(mark)) == SystemPromptView::Blocks(blocks));
            assert(blocks.drop_last() =~= Seq::empty());
            assert(total(blocks.drop_last(), system_block_marks()) == 0);
            assert(total(blocks, system_block_marks()) == 1);
        }
    } else if let Some(mark) = mark {
        let i = first_where(messages, has_user_text());
        first_where_finds(messages, has_user_text());
        if i < messages.len() {
            marking_adds_one(messages[i], mark);
            total_of_update(messages, message_marks(), i, marked_message(messages[i], mark));
        }
    }
}

/// Where no two headers differ in case alone, a request carries a cache mark exactly if a cache-key
/// header is not blank and there is a system prompt or user text to carry the mark.
pub proof fn request_is_marked_iff_asked_for(
    options: LanguageModelOptionsView,
    mark: Option<CacheControlView>,
)
    requires
        options.headers matches Some(map) ==> unambiguous(map),
        cache_control_outcome(options.headers, mark),
    ensures
        request_marks(anthropic_request(options, mark)) == 1 <==> {
            &&& options.headers matches Some(map) && some_key_has_text(map, cache_key_names())
            &&& system_text(options.system, options.messages) is Some || first_where(
                converted_messages(options.messages),
                has_user_text(),
            ) < converted_messages(options.messages).len()
        },
{
    mark_iff_cache_key(options.headers, mark);
    request_has_at_most_one_mark(options, mark);
}

/// With a system prompt the mark goes there and the messages stay as they are without a mark.
pub proof fn system_prompt_takes_the_mark(
    options: LanguageModelOptionsView,
    mark: CacheControlView,
)
    requires
        system_text(options.system, options.messages) is Some,
    ensures
        anthropic_request(options, Some(mark)).messages == anthropic_request(
            options,
            None,
        ).messages,
        anthropic_request(options, Some(mark)).system == Some(
            SystemPromptView::Blocks(
                seq![
                    SystemBlockView {
                        text: system_text(options.system, options.messages)->0,
                        cache_control: Some(mark),
                    },
                ],
            ),
        ),
{
}

/// Marking blocks a second time changes nothing, and a marked block still takes a mark.
proof fn marked_blocks_settle(
    blocks: Seq<UserBlockView>,
    mark: CacheControlView,
    other: CacheControlView,
)
    ensures
        first_where(marked_blocks(blocks, mark), takes_mark()) == first_where(blocks, takes_mark()),
        marked_blocks(marked_blocks(blocks, mark), other) == marked_blocks(blocks, mark),
{
    let i = first_where(blocks, takes_mark());
    let marked = marked_blocks(blocks, mark);
    first_where_finds(blocks, takes_mark());
    assert forall|j: int| 0 <= j < i implies !takes_mark()(#[trigger] marked[j]) by {
        assert(marked[j] == blocks[j]);
    }
    first_where_is(marked, takes_mark(), i);
    assert(marked_blocks(marked, other) =~= marked);
}

/// Marking the first user message again changes nothing, even with another mark: the mark that is
/// there stays.
pub proof fn marking_twice_is_marking_once(
    messages: Seq<MessageParamView>,
    mark: CacheControlView,
    other: CacheControlView,
)
    ensures
        with_first_user_marked(with_first_user_marked(messages, mark), other)
            == with_first_user_marked(messages, mark),
{
    let i = first_where(messages, has_user_text());
    let marked = with_first_user_marked(messages, mark);
    first_where_finds(messages, has_user_text());
    if i < messages.len() {
        let message = marked[i];
        match messages[i] {
            MessageParamView::User { content: UserContentView::Text(text) } => {
                let blocks = seq![UserBlockView::Text { text, cache_control: Some(mark) }];
                first_where_is(blocks, takes_mark(), 0);
                assert(marked_blocks(blocks, other) =~= blocks);
            },
            MessageParamView::User { content: UserContentView::Blocks(blocks) } => {
                marked_blocks_settle(blocks, mark, other);
            },
            MessageParamView::Assistant { .. } => {},
        }
        assert(has_user_text()(message));
        assert(marked_message(message, other) == message);
    }
    assert forall|j: int| 0 <= j < i implies !has_user_text()(#[trigger] marked[j]) by {
        assert(marked[j] == messages[j]);
    }
    first_where_is(marked, has_user_text(), i);
    assert(with_first_user_marked(marked, other) =~= marked);
}

/// The block without its cache mark.
pub open spec fn unmarked_block(block: UserBlockView) -> UserBlockView {
    match block {
        UserBlockView::Text { text, .. } => UserBlockView::Text { text, cache_control: None },
        UserBlockView::ToolResult { .. } => block,
    }
}

/// The blocks of a user message without their cache marks. Plain text counts as one block.
pub open spec fn unmarked_blocks(content: UserContentView) -> Seq<UserBlockView> {
    match content {
        UserContentView::Text(text) => seq![UserBlockView::Text { text, cache_control: None }],
        UserContentView::Blocks(blocks) => blocks.map_values(
            |block: UserBlockView| unmarked_block(block),
        ),
    }
}

/// The message without its cache marks, a user message being in blocks.
pub open spec fn unmarked_message(message: MessageParamView) -> MessageParamView {
    match message {
        MessageParamView::User { content } => MessageParamView::User {
            content: UserContentView::Blocks(unmarked_blocks(content)),
        },
        MessageParamView::Assistant { .. } => message,
    }
}

/// The system prompt without its cache marks, in blocks.
pub open spec fn unmarked_system(system: SystemPromptView) -> Seq<SystemBlockView> {
    match system {
        SystemPromptView::Text(text) => seq![SystemBlockView { text, cache_control: None }],
        SystemPromptView::Blocks(blocks) => blocks.map_values(
            |block: SystemBlockView| SystemBlockView { cache_control: None, ..block },
        ),
    }
}

/// The request without its cache marks, the system prompt and the user messages being in blocks.
pub open spec fn unmarked_request(request: AnthropicOptionsView) -> AnthropicOptionsView {
    AnthropicOptionsView {
        system: match request.system {
            Some(system) => Some(SystemPromptView::Blocks(unmarked_system(system))),
            None => None,
        },
        messages: request.messages.map_values(
            |message: MessageParamView| unmarked_message(message),
        ),
        ..request
    }
}

/// Marking a message changes nothing of it but a mark.
proof fn marking_changes_a_mark_alone(message: MessageParamView, mark: CacheControlView)
    ensures
        unmarked_message(marked_message(message, mark)) == unmarked_message(message),
{
    match message {
        MessageParamView::User { content: UserContentView::Text(text) } => {
            let blocks = seq![UserBlockView::Text { text, cache_control: Some(mark) }];
            assert(unmarked_blocks(UserContentView::Blocks(blocks)) =~= unmarked_blocks(
                UserContentView::Text(text),
            ));
        },
        MessageParamView::User { content: UserContentView::Blocks(blocks) } => {
            first_where_finds(blocks, takes_mark());
            assert(unmarked_blocks(UserContentView::Blocks(marked_blocks(blocks, mark)))
                =~= unmarked_blocks(UserContentView::Blocks(blocks)));
        },
        MessageParamView::Assistant { .. } => {},
    }
}

/// Marking neither adds, drops nor reorders messages, changes at most the first user message that
/// has text, and changes nothing of it but a mark: but for marks, and for plain text that becomes
/// one block, every message stays as it is.
pub proof fn marking_keeps_the_conversation(
    messages: Seq<MessageParamView>,
    mark: CacheControlView,
)
    ensures
        with_first_user_marked(messages, mark).len() == messages.len(),
        forall|j: int|
            0 <= j < messages.len() && j != first_where(messages, has_user_text())
                ==> #[trigger] with_first_user_marked(messages, mark)[j] == messages[j],
        forall|j: int|
            0 <= j < messages.len() ==> unmarked_message(
                #[trigger] with_first_user_marked(messages, mark)[j],
            ) == unmarked_message(messages[j]),
{
    let i = first_where(messages, has_user_text());
    first_where_finds(messages, has_user_text());
    if i < messages.len() {
        marking_changes_a_mark_alone(messages[i], mark);
    }
}

/// Requests are the same but for marks, whichever mark they are built with.
proof fn the_mark_decides_marks_alone(
    options: LanguageModelOptionsView,
    mark: Option<CacheControlView>,
)
    ensures
        unmarked_request(anthropic_request(options, mark)) == unmarked_request(
            anthropic_request(options, None),
        ),
{
    let marked = anthropic_request(options, mark);
    let plain = anthropic_request(options, None);
    if let Some(mark) = mark {
        marking_keeps_the_conversation(converted_messages(options.messages), mark);
        if let Some(text) = system_text(options.system, options.messages) {
            assert(unmarked_system(system_prompt(text, Some(mark))) =~= unmarked_system(
                system_prompt(text, None),
            ));
        }
        assert(unmarked_request(marked).messages =~= unmarked_request(plain).messages);
    }
}

/// Headers decide about cache marks and nothing else: requests for the same, but for the headers,
/// are the same but for marks.
pub proof fn headers_decide_marks_alone(
    options: LanguageModelOptionsView,
    other: LanguageModelOptionsView,
    mark: Option<CacheControlView>,
    other_mark: Option<CacheControlView>,
)
    requires
        (LanguageModelOptionsView { headers: options.headers, ..other }) == options,
    ensures
        unmarked_request(anthropic_request(options, mark)) == unmarked_request(
            anthropic_request(other, other_mark),
        ),
{
    the_mark_decides_marks_alone(options, mark);
    the_mark_decides_marks_alone(other, other_mark);
}

/// A conversation is converted piece by piece: what a message becomes does not depend on those
/// around it, and the order is kept.
pub proof fn conversion_is_piecewise(a: Seq<TaggedMessageView>, b: Seq<TaggedMessageView>)
    ensures
        converted_messages(a + b) == converted_messages(a) + converted_messages(b),
    decreases b.len(),
{
    if b.len() == 0 {
        assert(a + b =~= a);
        assert(converted_messages(a) + converted_messages(b) =~= converted_messages(a));
    } else {
        conversion_is_piecewise(a, b.drop_last());
        assert((a + b).drop_last() =~= a + b.drop_last());
        assert((a + b).last() == b.last());
        assert(converted_messages(a + b) =~= converted_messages(a) + converted_messages(b));
    }
}

/// The last system message that is not empty decides the system prompt, whatever came before it.
pub proof fn later_system_messages_win(
    system: Option<Seq<char>>,
    a: Seq<TaggedMessageView>,
    b: Seq<TaggedMessageView>,
)
    ensures
        system_text(system, a + b) == (match system_text(None, b) {
            Some(text) => Some(text),
            None => system_text(system, a),
        }),
    decreases b.len(),
{
    if b.len() == 0 {
        assert(a + b =~= a);
    } else {
        later_system_messages_win(system, a, b.drop_last());
        assert((a + b).drop_last() =~= a + b.drop_last());
        assert((a + b).last() == b.last());
    }
}

/// More effort never means a smaller budget, no budget exceeds the limit, and the least and the
/// greatest share the limit between them.
pub proof fn thinking_budgets_grow_with_effort(max_tokens: u32)
    ensures
        0 <= thinking_budget(ReasoningEffort::Low, max_tokens) <= thinking_budget(
            ReasoningEffort::Medium,
            max_tokens,
        ) <= thinking_budget(ReasoningEffort::High, max_tokens) <= max_tokens,
        thinking_budget(ReasoningEffort::Low, max_tokens) + thinking_budget(
            ReasoningEffort::High,
            max_tokens,
        ) == max_tokens,
{
}

/// Token counts that come in with a streamed answer come to the same as those of a whole answer, a
/// count that is missing standing for zero; and the counts of input, output and cached tokens are
/// always there.
pub proof fn streamed_and_whole_usage_agree(
    delta: AnthropicMessageDeltaUsage,
    whole: AnthropicUsage,
)
    requires
        whole.input_tokens == count_or_zero(delta.input_tokens),
        whole.output_tokens == delta.output_tokens,
        whole.cache_creation_input_tokens == count_or_zero(delta.cache_creation_input_tokens),
        whole.cache_read_input_tokens == count_or_zero(delta.cache_read_input_tokens),
        whole.cache_creation_input_tokens + whole.cache_read_input_tokens <= usize::MAX,
    ensures
        delta_usage_of(delta) == usage_of(whole),
        usage_of(whole).input_tokens is Some,
        usage_of(whole).output_tokens is Some,
        usage_of(whole).cached_tokens is Some,
        delta_usage_of(delta).input_tokens is Some,
        delta_usage_of(delta).output_tokens is Some,
        delta_usage_of(delta).cached_tokens is Some,
{
}

} // verus!
