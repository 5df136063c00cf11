//! What becomes of a conversation, said of the conversation and the request.
use crate::json::{json_members, json_object, json_text};
use crate::language_model::{ContentView, LanguageModelOptionsView, ReasoningEffort, Usage};
use crate::messages::{AssistantMessageView, MessageView, TaggedMessageView};
use crate::providers::anthropic::client::{
    AnthropicMessageDeltaUsage, AnthropicThinking, AnthropicUsage, AssistantBlockView,
    CacheControlView, MessageParamView, SystemBlockView, SystemPromptView, UserBlockView,
    UserContentView,
};
use crate::providers::anthropic::conversions::{
    anthropic_request, converted_content, converted_message, converted_messages, converted_tool,
    delta_usage_of, system_prompt, system_text, thinking_budget, usage_of, with_first_user_marked,
};
use crate::providers::anthropic::laws::{
    conversion_is_piecewise, headers_decide_marks_alone, unmarked_request,
};
use crate::tools::ToolView;
use vstd::prelude::*;

verus! {

/// What the model said goes into the request as the model said it: text as text, a tool call with
/// its id, name and input, reasoning with its signature or signed by itself. What is not supported
/// and what waits for approval does not go in.
pub proof fn what_the_model_said_is_kept(content: ContentView)
    ensures
        match content {
            ContentView::Text(said) => converted_content(content) == Some(
                AssistantBlockView::Text { text: said },
            ),
            ContentView::ToolCall(call) => converted_content(content) matches Some(
                AssistantBlockView::ToolUse { id, input, name },
            ) && id == call.tool.id && input == call.input && name == call.tool.name,
            ContentView::Reasoning { content: thought, signature: given } => {
                &&& converted_content(content) matches Some(
                    AssistantBlockView::Thinking { thinking, signature },
                )
                &&& thinking == thought
                &&& given is Some ==> signature == given->0
                &&& given is None ==> signature == thought
            },
            ContentView::NotSupported(_) | ContentView::ToolApprovalRequest(_) => {
                converted_content(content) is None
            },
        },
{
}

/// A user's text becomes a user message, whatever the text is.
pub proof fn users_speak_as_users(text: Seq<char>)
    ensures
        converted_message(MessageView::User(text)) == Some(
            MessageParamView::User { content: UserContentView::Text(text) },
        ),
{
}

/// A developer's text becomes a user message that is framed.
pub proof fn developers_speak_as_framed_users(text: Seq<char>)
    ensures
        converted_message(MessageView::Developer(text)) == Some(
            MessageParamView::User {
                content: UserContentView::Text("<developer>\n"@ + text + "\n</developer>"@),
            },
        ),
{
}

/// An assistant message whose content is text, a tool call or reasoning becomes exactly one
/// assistant message with that content and nothing else, whatever token counts it carries; any
/// other becomes none.
pub proof fn assistants_speak_as_assistants(message: AssistantMessageView)
    ensures
        match message.content {
            ContentView::Text(_) | ContentView::ToolCall(_) | ContentView::Reasoning { .. } => {
                &&& converted_message(MessageView::Assistant(message)) matches Some(
                    MessageParamView::Assistant { content },
                )
                &&& content.len() == 1
                &&& Some(content[0]) == converted_content(message.content)
            },
            ContentView::NotSupported(_) | ContentView::ToolApprovalRequest(_) => {
                converted_message(MessageView::Assistant(message)) is None
            },
        },
{
}

/// Messages that differ in their token counts alone are converted alike.
pub proof fn token_counts_do_not_matter(
    content: ContentView,
    usage: Option<Usage>,
    other: Option<Usage>,
)
    ensures
        converted_message(MessageView::Assistant(AssistantMessageView { content, usage }))
            == converted_message(
            MessageView::Assistant(AssistantMessageView { content, usage: other }),
        ),
{
}

/// The result of a tool becomes a user message of one block, under the id of the call: the JSON of
/// what the tool gave, or `null` where it failed.
pub proof fn tool_results_are_handed_back(message: MessageView)
    ensures
        message matches MessageView::Tool(result) ==> {
            &&& converted_message(message) matches Some(
                MessageParamView::User { content: UserContentView::Blocks(blocks) },
            )
            &&& blocks.len() == 1
            &&& blocks[0] matches UserBlockView::ToolResult { tool_use_id, content }
            &&& tool_use_id == result.tool.id
            &&& result.output is Ok ==> content == json_text(result.output->Ok_0)
            &&& result.output is Err ==> content == "null"@
        },
{
}

/// System messages and approvals are not among the messages of the request.
pub proof fn system_messages_and_approvals_stay_out(
    text: Seq<char>,
    id: Seq<char>,
    approved: bool,
)
    ensures
        converted_message(MessageView::System(text)) is None,
        converted_message(MessageView::ToolApproval { id, approved }) is None,
{
}

/// A message has its place between what the messages before it and those after it become, whatever
/// they are and whatever step it belongs to.
pub proof fn a_message_keeps_its_place(
    before: Seq<TaggedMessageView>,
    message: TaggedMessageView,
    after: Seq<TaggedMessageView>,
)
    ensures
        converted_messages(before.push(message) + after) == converted_messages(before) + (
        match converted_message(message.message) {
            Some(converted) => seq![converted],
            None => Seq::empty(),
        }) + converted_messages(after),
        converted_messages(Seq::empty()) == Seq::<MessageParamView>::empty(),
{
    conversion_is_piecewise(before.push(message), after);
    assert(before.push(message).drop_last() =~= before);
    assert(converted_messages(before.push(message)) =~= converted_messages(before) + (
    match converted_message(message.message) {
        Some(converted) => seq![converted],
        None => Seq::empty(),
    }));
}

/// The messages of an unmarked request are those that the conversation becomes.
pub proof fn unmarked_requests_hold_the_conversation(options: LanguageModelOptionsView)
    ensures
        anthropic_request(options, None).messages == converted_messages(options.messages),
        anthropic_request(options, None).model == Seq::<char>::empty(),
{
    reveal_strlit("");
    assert(""@ =~= Seq::empty());
}

/// A system message that is not empty.
pub open spec fn instructs(message: TaggedMessageView) -> bool {
    message.message matches MessageView::System(text) && text.len() > 0
}

/// The last system message that is not empty is the system prompt, whatever else the conversation
/// and the options hold.
pub proof fn the_last_instructions_are_the_system_prompt(
    options: LanguageModelOptionsView,
    i: int,
)
    requires
        0 <= i < options.messages.len(),
        instructs(options.messages[i]),
        forall|j: int| i < j < options.messages.len() ==> !instructs(#[trigger] options.messages[j]),
    ensures
        options.messages[i].message matches MessageView::System(text) && anthropic_request(
            options,
            None,
        ).system == Some(SystemPromptView::Text(text)),
{
    last_instructions(options.system, options.messages, i);
}

/// The step over messages that give no instructions.
proof fn last_instructions(
    system: Option<Seq<char>>,
    messages: Seq<TaggedMessageView>,
    i: int,
)
    requires
        0 <= i < messages.len(),
        instructs(messages[i]),
        forall|j: int| i < j < messages.len() ==> !instructs(#[trigger] messages[j]),
    ensures
        messages[i].message matches MessageView::System(text) && system_text(system, messages)
            == Some(text),
    decreases messages.len(),
{
    if i < messages.len() - 1 {
        assert(!instructs(messages[messages.len() - 1]));
        let front = messages.drop_last();
        assert forall|j: int| i < j < front.len() implies !instructs(#[trigger] front[j]) by {
            assert(front[j] == messages[j]);
        }
        last_instructions(system, front, i);
    }
}

/// Without a system message that is not empty the prompt given beside the conversation is the
/// system prompt, and there is none where that is empty or missing.
pub proof fn without_instructions_the_given_prompt_stands(options: LanguageModelOptionsView)
    requires
        forall|j: int| 0 <= j < options.messages.len() ==> !instructs(#[trigger] options.messages[j]),
    ensures
        options.system matches Some(text) && text.len() > 0 ==> anthropic_request(
            options,
            None,
        ).system == Some(SystemPromptView::Text(options.system->0)),
        !(options.system matches Some(text) && text.len() > 0) ==> anthropic_request(
            options,
            None,
        ).system is None,
{
    no_instructions(options.system, options.messages);
}

/// The step over messages that give no instructions, where there are no others.
proof fn no_instructions(system: Option<Seq<char>>, messages: Seq<TaggedMessageView>)
    requires
        forall|j: int| 0 <= j < messages.len() ==> !instructs(#[trigger] messages[j]),
    ensures
        system matches Some(text) && text.len() > 0 ==> system_text(system, messages) == system,
        !(system matches Some(text) && text.len() > 0) ==> system_text(system, messages) is None,
    decreases messages.len(),
{
    if messages.len() > 0 {
        assert(!instructs(messages[messages.len() - 1]));
        let front = messages.drop_last();
        assert forall|j: int| 0 <= j < front.len() implies !instructs(#[trigger] front[j]) by {
            assert(front[j] == messages[j]);
        }
        no_instructions(system, front);
    }
}

/// A system prompt without a mark is its text; with a mark it is one block with the same text and
/// that mark.
pub proof fn a_marked_system_prompt_is_one_block(text: Seq<char>, mark: CacheControlView)
    ensures
        system_prompt(text, None) == SystemPromptView::Text(text),
        system_prompt(text, Some(mark)) matches SystemPromptView::Blocks(blocks) && blocks.len()
            == 1 && blocks[0].text == text && blocks[0].cache_control == Some(mark),
{
}

/// A request with a mark is the request without one but for where the mark goes: onto the system
/// prompt where the request has one, and into the first user message that has text otherwise.
pub proof fn a_mark_goes_to_one_place(options: LanguageModelOptionsView, mark: CacheControlView)
    ensures
        ({
            let plain = anthropic_request(options, None);
            let marked = anthropic_request(options, Some(mark));
            match plain.system {
                Some(prompt) => {
                    &&& marked.messages == plain.messages
                    &&& prompt matches SystemPromptView::Text(text) && marked.system == Some(
                        SystemPromptView::Blocks(
                            seq![SystemBlockView { text, cache_control: Some(mark) }],
                        ),
                    )
                },
                None => {
                    &&& marked.system is None
                    &&& marked.messages == with_first_user_marked(plain.messages, mark)
                },
            }
        }),
        unmarked_request(anthropic_request(options, Some(mark))) == unmarked_request(
            anthropic_request(options, None),
        ),
{
    headers_decide_marks_alone(options, options, Some(mark), None);
}

/// The tools of a request are those on offer, as many and in the same order, with the same names
/// and descriptions; of a schema that is an object every member but `$schema` stays, and any other
/// schema stays as it is.
pub proof fn tools_are_offered_as_given(
    options: LanguageModelOptionsView,
    mark: Option<CacheControlView>,
)
    ensures
        anthropic_request(options, mark).tools is Some <==> options.tools is Some,
        options.tools matches Some(tools) ==> {
            &&& anthropic_request(options, mark).tools matches Some(offered)
            &&& offered.len() == tools.len()
            &&& forall|i: int|
                0 <= i < tools.len() ==> {
                    &&& (#[trigger] offered[i]).name == tools[i].name
                    &&& offered[i].description == tools[i].description
                    &&& json_members(tools[i].input_schema) is None ==> offered[i].input_schema
                        == tools[i].input_schema
                    &&& json_members(tools[i].input_schema) matches Some(members)
                        ==> offered[i].input_schema == json_object(members.remove("$schema"@))
                }
        },
{
}

/// A tool keeps its name and its description, and of its schema all but the `$schema` member.
pub proof fn a_tool_is_offered_as_given(tool: ToolView)
    ensures
        converted_tool(tool).name == tool.name,
        converted_tool(tool).description == tool.description,
        json_members(tool.input_schema) is None ==> converted_tool(tool).input_schema
            == tool.input_schema,
        json_members(tool.input_schema) matches Some(members) ==> converted_tool(tool).input_schema
            == json_object(members.remove("$schema"@)),
{
}

/// Low effort takes a quarter of the limit for thinking, rounded down; medium effort half, rounded
/// down; high effort all but a quarter that is rounded down.
pub proof fn budgets_are_shares_of_the_limit(max_tokens: u32)
    ensures
        ({
            let low = thinking_budget(ReasoningEffort::Low, max_tokens);
            let medium = thinking_budget(ReasoningEffort::Medium, max_tokens);
            let high = thinking_budget(ReasoningEffort::High, max_tokens);
            &&& 4 * low <= max_tokens < 4 * low + 4
            &&& 2 * medium <= max_tokens < 2 * medium + 2
            &&& 4 * (max_tokens - high) <= max_tokens < 4 * (max_tokens - high) + 4
        }),
{
}

/// A request asks for thinking exactly if an effort is given, within the share of the limit that
/// the effort stands for; the limit is ten thousand tokens where none is given.
pub proof fn thinking_is_asked_for_by_effort(
    options: LanguageModelOptionsView,
    mark: Option<CacheControlView>,
)
    ensures
        anthropic_request(options, mark).thinking is Some <==> options.reasoning_effort is Some,
        options.reasoning_effort matches Some(effort) ==> {
            let limit: u32 = if options.max_output_tokens is Some {
                options.max_output_tokens->0
            } else {
                10_000
            };
            &&& anthropic_request(options, mark).thinking matches Some(
                AnthropicThinking::Enable { budget_tokens },
            )
            &&& effort == ReasoningEffort::Low ==> 4 * budget_tokens <= limit < 4 * budget_tokens
                + 4
            &&& effort == ReasoningEffort::Medium ==> 2 * budget_tokens <= limit < 2
                * budget_tokens + 2
            &&& effort == ReasoningEffort::High ==> 4 * (limit - budget_tokens) <= limit < 4 * (
            limit - budget_tokens) + 4
        },
{
}

/// Tokens written to the cache and tokens read from it count as cached, one for one; the other
/// counts are kept, a missing one as zero, and nothing is said of reasoning.
pub proof fn token_counts_are_kept(whole: AnthropicUsage, delta: AnthropicMessageDeltaUsage)
    ensures
        usage_of(whole).input_tokens == Some(whole.input_tokens),
        usage_of(whole).output_tokens == Some(whole.output_tokens),
        whole.cache_creation_input_tokens + whole.cache_read_input_tokens <= usize::MAX ==> (
        usage_of(whole).cached_tokens matches Some(cached) && cached
            == whole.cache_creation_input_tokens + whole.cache_read_input_tokens),
        usage_of(whole).reasoning_tokens is None,
        delta_usage_of(delta).input_tokens == Some(
            if delta.input_tokens is Some {
                delta.input_tokens->0
            } else {
                0
            },
        ),
        delta_usage_of(delta).output_tokens == Some(delta.output_tokens),
        delta_usage_of(delta).reasoning_tokens is None,
        ({
            let created: int = if delta.cache_creation_input_tokens is Some {
                delta.cache_creation_input_tokens->0 as int
            } else {
                0
            };
            let read: int = if delta.cache_read_input_tokens is Some {
                delta.cache_read_input_tokens->0 as int
            } else {
                0
            };
            created + read <= usize::MAX ==> (delta_usage_of(delta).cached_tokens matches Some(
                cached,
            ) && cached == created + read)
        }),
{
}

} // verus!
