//! Building an Anthropic request.
use crate::error::Error;
use crate::json::{json_members, json_text, null, remove_member, to_text, without_member};
use crate::language_model::{
    ContentView, LanguageModelOptions, LanguageModelOptionsView, LanguageModelResponseContentType,
    ReasoningEffort, Usage,
};
use crate::messages::{Message, MessageView, TaggedMessageView};
use crate::providers::anthropic::client::{
    AnthropicAssistantMessageParamContent, AnthropicCacheControl, AnthropicMessageDeltaUsage,
    AnthropicMessageParam, AnthropicOptions, AnthropicOptionsView,
    AnthropicSystemMessageContentBlock, AnthropicSystemPrompt, AnthropicThinking, AnthropicTool,
    AnthropicToolView, AnthropicUsage, AnthropicUserMessageContent,
    AnthropicUserMessageContentBlock, AssistantBlockView, CacheControlView, MessageParamView,
    SystemBlockView, SystemPromptView, UserBlockView, UserContentView,
};
use crate::providers::anthropic::headers::{
    cache_control_outcome, prompt_cache_control_from_headers,
};
use crate::sequences::{first_where, first_where_is, opt_view, seq_view};
use crate::text::{blank, is_blank};
use crate::tools::{Tool, ToolView};
use serde_json::Value;
use vstd::prelude::*;

verus! {

/// The system prompt with its cache mark: one marked block, or plain text where there is no mark.
pub open spec fn system_prompt(
    system: Seq<char>,
    cache_control: Option<CacheControlView>,
) -> SystemPromptView {
    match cache_control {
        Some(mark) => SystemPromptView::Blocks(
            seq![SystemBlockView { text: system, cache_control: Some(mark) }],
        ),
        None => SystemPromptView::Text(system),
    }
}

/// The system prompt, as a marked block where there is a cache mark and as plain text otherwise.
pub fn system_prompt_with_optional_cache(
    system: String,
    cache_control: Option<&AnthropicCacheControl>,
) -> (r: AnthropicSystemPrompt)
    ensures
        r@ == system_prompt(
            system@,
            match cache_control {
                Some(mark) => Some(mark@),
                None => None,
            },
        ),
{
    match cache_control {
        Some(mark) => {
            let block = AnthropicSystemMessageContentBlock::Text {
                text: system,
                cache_control: Some(mark.clone()),
            };
            let blocks = vec![block];
            assert(seq_view(blocks@) =~= seq![
                SystemBlockView { text: system@, cache_control: Some(mark@) },
            ]);
            AnthropicSystemPrompt::Blocks(blocks)
        },
        None => AnthropicSystemPrompt::Text(system),
    }
}

/// A block that can carry a cache mark: text that is not blank.
pub open spec fn takes_mark() -> spec_fn(UserBlockView) -> bool {
    |block: UserBlockView|
        match block {
            UserBlockView::Text { text, .. } => !blank(text),
            UserBlockView::ToolResult { .. } => false,
        }
}

/// The block with the mark, unless it already carries one.
pub open spec fn marked_block(block: UserBlockView, mark: CacheControlView) -> UserBlockView {
    match block {
        UserBlockView::Text { text, cache_control: None } => UserBlockView::Text {
            text,
            cache_control: Some(mark),
        },
        _ => block,
    }
}

/// The blocks with the mark on the first one that can carry it.
pub open spec fn marked_blocks(
    blocks: Seq<UserBlockView>,
    mark: CacheControlView,
) -> Seq<UserBlockView> {
    let i = first_where(blocks, takes_mark());
    if i < blocks.len() {
        blocks.update(i, marked_block(blocks[i], mark))
    } else {
        blocks
    }
}

/// A user message with text that is not blank.
pub open spec fn has_user_text() -> spec_fn(MessageParamView) -> bool {
    |message: MessageParamView|
        match message {
            MessageParamView::User { content: UserContentView::Text(text) } => !blank(text),
            MessageParamView::User { content: UserContentView::Blocks(blocks) } => first_where(
                blocks,
                takes_mark(),
            ) < blocks.len(),
            MessageParamView::Assistant { .. } => false,
        }
}

/// The message with the mark on its first text that is not blank.
pub open spec fn marked_message(
    message: MessageParamView,
    mark: CacheControlView,
) -> MessageParamView {
    match message {
        MessageParamView::User { content: UserContentView::Text(text) } => MessageParamView::User {
            content: UserContentView::Blocks(
                seq![UserBlockView::Text { text, cache_control: Some(mark) }],
            ),
        },
        MessageParamView::User { content: UserContentView::Blocks(blocks) } => {
            MessageParamView::User { content: UserContentView::Blocks(marked_blocks(blocks, mark)) }
        },
        MessageParamView::Assistant { .. } => message,
    }
}

/// The messages with the mark in the first user message that has text which is not blank.
pub open spec fn with_first_user_marked(
    messages: Seq<MessageParamView>,
    mark: CacheControlView,
) -> Seq<MessageParamView> {
    let i = first_where(messages, has_user_text());
    if i < messages.len() {
        messages.update(i, marked_message(messages[i], mark))
    } else {
        messages
    }
}

/// Puts the mark on the first block that can carry it; says whether there was one.
fn mark_first_text_block(
    blocks: &mut Vec<AnthropicUserMessageContentBlock>,
    cache_control: &AnthropicCacheControl,
) -> (r: bool)
    ensures
        r == (first_where(seq_view(old(blocks)@), takes_mark()) < old(blocks)@.len()),
        seq_view(final(blocks)@) == marked_blocks(seq_view(old(blocks)@), cache_control@),
{
    let ghost before = seq_view(blocks@);
    let mut i: usize = 0;
    while i < blocks.len()
        invariant
            i <= blocks@.len(),
            seq_view(blocks@) == before,
            before == seq_view(old(blocks)@),
            forall|j: int| 0 <= j < i ==> !takes_mark()(#[trigger] before[j]),
        decreases blocks@.len() - i,
    {
        match &mut blocks[i] {
            AnthropicUserMessageContentBlock::Text { text, cache_control: block_cache_control } => {
                if !is_blank(text.as_str()) {
                    if block_cache_control.is_none() {
                        *block_cache_control = Some(cache_control.clone());
                    }
                    proof {
                        first_where_is(before, takes_mark(), i as int);
                        assert(seq_view(blocks@) =~= marked_blocks(before, cache_control@));
                    }
                    return true;
                }
            },
            AnthropicUserMessageContentBlock::ToolResult { .. } => {},
        }
        assert(seq_view(blocks@) =~= before);
        i += 1;
    }
    proof {
        first_where_is(before, takes_mark(), i as int);
    }
    false
}

/// Marks the first user message that has text which is not blank: a plain text becomes one marked
/// block; of several blocks the first text that is not blank is marked, unless it is already.
pub fn apply_prompt_cache_to_first_user_message(
    messages: &mut [AnthropicMessageParam],
    cache_control: &AnthropicCacheControl,
)
    ensures
        seq_view(final(messages)@) == with_first_user_marked(
            seq_view(old(messages)@),
            cache_control@,
        ),
{
    let ghost before = seq_view(messages@);
    let mut i: usize = 0;
    while i < messages.len()
        invariant
            i <= messages@.len(),
            seq_view(messages@) == before,
            before == seq_view(old(messages)@),
            forall|j: int| 0 <= j < i ==> !has_user_text()(#[trigger] before[j]),
        decreases messages@.len() - i,
    {
        if let AnthropicMessageParam::User { content } = &mut messages[i] {
            match content {
                AnthropicUserMessageContent::Text(text) => {
                    if !is_blank(text.as_str()) {
                        let mut content_text = String::new();
                        core::mem::swap(&mut content_text, text);
                        let blocks = vec![
                            AnthropicUserMessageContentBlock::Text {
                                text: content_text,
                                cache_control: Some(cache_control.clone()),
                            },
                        ];
                        assert(seq_view(blocks@) =~= seq![
                            UserBlockView::Text {
                                text: content_text@,
                                cache_control: Some(cache_control@),
                            },
                        ]);
                        *content = AnthropicUserMessageContent::Blocks(blocks);
                        proof {
                            first_where_is(before, has_user_text(), i as int);
                            assert(seq_view(messages@) =~= with_first_user_marked(
                                before,
                                cache_control@,
                            ));
                        }
                        return;
                    }
                },
                AnthropicUserMessageContent::Blocks(blocks) => {
                    if mark_first_text_block(blocks, cache_control) {
                        proof {
                            first_where_is(before, has_user_text(), i as int);
                            assert(seq_view(messages@) =~= with_first_user_marked(
                                before,
                                cache_control@,
                            ));
                        }
                        return;
                    }
                },
            }
        }
        assert(seq_view(messages@) =~= before);
        i += 1;
    }
    proof {
        first_where_is(before, has_user_text(), i as int);
    }
}

/// The text that stands for the output of a tool: its JSON, and `null` where the tool failed.
pub open spec fn tool_output_text(output: Result<Value, Error>) -> Seq<char> {
    match output {
        Ok(value) => json_text(value),
        Err(_) => "null"@,
    }
}

/// How a developer message is set apart within a user message.
pub open spec fn developer_text(text: Seq<char>) -> Seq<char> {
    "<developer>\n"@ + text + "\n</developer>"@
}

/// What a piece of an assistant message becomes in the request, if anything.
pub open spec fn converted_content(content: ContentView) -> Option<AssistantBlockView> {
    match content {
        ContentView::Text(text) => Some(AssistantBlockView::Text { text }),
        ContentView::ToolCall(call) => Some(
            AssistantBlockView::ToolUse {
                id: call.tool.id,
                input: call.input,
                name: call.tool.name,
            },
        ),
        ContentView::Reasoning { content, signature } => Some(
            AssistantBlockView::Thinking {
                thinking: content,
                signature: match signature {
                    Some(signature) => signature,
                    None => content,
                },
            },
        ),
        ContentView::NotSupported(_) => None,
        ContentView::ToolApprovalRequest(_) => None,
    }
}

/// What a message becomes among the messages of the request, if anything. System messages go into
/// the system prompt; approvals of tool calls are not the provider's business.
pub open spec fn converted_message(message: MessageView) -> Option<MessageParamView> {
    match message {
        MessageView::System(_) => None,
        MessageView::User(text) => Some(
            MessageParamView::User { content: UserContentView::Text(text) },
        ),
        MessageView::Assistant(assistant) => match converted_content(assistant.content) {
            Some(block) => Some(MessageParamView::Assistant { content: seq![block] }),
            None => None,
        },
        MessageView::Tool(result) => Some(
            MessageParamView::User {
                content: UserContentView::Blocks(
                    seq![
                        UserBlockView::ToolResult {
                            tool_use_id: result.tool.id,
                            content: tool_output_text(result.output),
                        },
                    ],
                ),
            },
        ),
        MessageView::Developer(text) => Some(
            MessageParamView::User { content: UserContentView::Text(developer_text(text)) },
        ),
        MessageView::ToolApproval { .. } => None,
    }
}

/// The messages of the request, in the order of the conversation.
pub open spec fn converted_messages(messages: Seq<TaggedMessageView>) -> Seq<MessageParamView>
    decreases messages.len(),
{
    if messages.len() == 0 {
        Seq::empty()
    } else {
        let earlier = converted_messages(messages.drop_last());
        match converted_message(messages.last().message) {
            Some(message) => earlier.push(message),
            None => earlier,
        }
    }
}

/// The text of the system prompt: that of the last system message that is not empty, or else the
/// one given beside the messages, unless it is empty.
pub open spec fn system_text(
    system: Option<Seq<char>>,
    messages: Seq<TaggedMessageView>,
) -> Option<Seq<char>>
    decreases messages.len(),
{
    if messages.len() == 0 {
        match system {
            Some(text) => if text.len() > 0 {
                Some(text)
            } else {
                None
            },
            None => None,
        }
    } else {
        match messages.last().message {
            MessageView::System(text) => if text.len() > 0 {
                Some(text)
            } else {
                system_text(system, messages.drop_last())
            },
            _ => system_text(system, messages.drop_last()),
        }
    }
}

/// The tool with its schema freed of the `$schema` marker.
pub open spec fn converted_tool(tool: ToolView) -> AnthropicToolView {
    AnthropicToolView {
        name: tool.name,
        description: tool.description,
        input_schema: without_member(tool.input_schema, "$schema"@),
    }
}

/// How many of the tokens that an answer may have are for thinking: a quarter, half, or all but a
/// quarter.
pub open spec fn thinking_budget(effort: ReasoningEffort, max_tokens: u32) -> int {
    match effort {
        ReasoningEffort::Low => max_tokens as int / 4,
        ReasoningEffort::Medium => max_tokens as int / 2,
        ReasoningEffort::High => max_tokens - max_tokens as int / 4,
    }
}

/// The number of tokens that an answer may have where the caller sets no limit.
pub const DEFAULT_MAX_TOKENS: u32 = 10_000;

/// The thinking that a request asks for, if it asks for any.
pub open spec fn requested_thinking(
    effort: Option<ReasoningEffort>,
    max_output_tokens: Option<u32>,
) -> Option<AnthropicThinking> {
    match effort {
        Some(effort) => Some(
            AnthropicThinking::Enable {
                budget_tokens: thinking_budget(
                    effort,
                    match max_output_tokens {
                        Some(limit) => limit,
                        None => DEFAULT_MAX_TOKENS,
                    },
                ) as usize,
            },
        ),
        None => None,
    }
}

/// The request that `options` ask for, with the given cache mark. The mark goes on the system
/// prompt where there is one, and into the first user message otherwise.
pub open spec fn anthropic_request(
    options: LanguageModelOptionsView,
    mark: Option<CacheControlView>,
) -> AnthropicOptionsView {
    let system = system_text(options.system, options.messages);
    let messages = converted_messages(options.messages);
    AnthropicOptionsView {
        model: ""@,
        system: match system {
            Some(text) => Some(system_prompt(text, mark)),
            None => None,
        },
        messages: match (system, mark) {
            (None, Some(mark)) => with_first_user_marked(messages, mark),
            _ => messages,
        },
        tools: match options.tools {
            Some(tools) => Some(tools.map_values(|tool: ToolView| converted_tool(tool))),
            None => None,
        },
        thinking: requested_thinking(options.reasoning_effort, options.max_output_tokens),
    }
}

/// The text that stands for the output of a tool.
fn output_text(output: Result<Value, Error>) -> (r: String)
    ensures
        r@ == tool_output_text(output),
{
    let value = match output {
        Ok(value) => value,
        Err(_) => null(),
    };
    to_text(&value)
}

/// Converts a piece of an assistant message.
pub fn convert_content(content: LanguageModelResponseContentType) -> (r: Option<
    AnthropicAssistantMessageParamContent,
>)
    ensures
        opt_view(r) == converted_content(content@),
{
    match content {
        LanguageModelResponseContentType::Text(text) => Some(
            AnthropicAssistantMessageParamContent::Text { text },
        ),
        LanguageModelResponseContentType::ToolCall(call) => Some(
            AnthropicAssistantMessageParamContent::ToolUse {
                id: call.tool.id,
                input: call.input,
                name: call.tool.name,
            },
        ),
        LanguageModelResponseContentType::Reasoning { content, extensions } => {
            let signature = match extensions.anthropic_thinking.signature {
                Some(signature) => signature,
                None => content.clone(),
            };
            Some(AnthropicAssistantMessageParamContent::Thinking { thinking: content, signature })
        },
        LanguageModelResponseContentType::NotSupported(_) => None,
        LanguageModelResponseContentType::ToolApprovalRequest(_) => None,
    }
}

/// Converts one message; gives nothing for a message that has no place among those of the request.
pub fn convert_message(message: Message) -> (r: Option<AnthropicMessageParam>)
    ensures
        opt_view(r) == converted_message(message@),
{
    match message {
        Message::System(_) => None,
        Message::User(user) => Some(
            AnthropicMessageParam::User {
                content: AnthropicUserMessageContent::Text(user.content),
            },
        ),
        Message::Assistant(assistant) => {
            match convert_content(assistant.content) {
                Some(block) => {
                    let content = vec![block];
                    assert(seq_view(content@) =~= seq![block@]);
                    Some(AnthropicMessageParam::Assistant { content })
                },
                None => None,
            }
        },
        Message::Tool(result) => {
            let block = AnthropicUserMessageContentBlock::ToolResult {
                tool_use_id: result.tool.id,
                content: output_text(result.output),
            };
            let blocks = vec![block];
            assert(seq_view(blocks@) =~= seq![block@]);
            Some(
                AnthropicMessageParam::User {
                    content: AnthropicUserMessageContent::Blocks(blocks),
                },
            )
        },
        Message::Developer(text) => {
            let mut framed = "<developer>\n".to_owned();
            framed.append(text.as_str());
            framed.append("\n</developer>");
            Some(
                AnthropicMessageParam::User { content: AnthropicUserMessageContent::Text(framed) },
            )
        },
        Message::ToolApproval(_) => None,
    }
}

/// Converts a tool, dropping the `$schema` marker of its schema.
pub fn convert_tool(tool: Tool) -> (r: AnthropicTool)
    ensures
        r@ == converted_tool(tool@),
        json_members(r.input_schema) == (match json_members(tool.input_schema) {
            Some(members) => Some(members.remove("$schema"@)),
            None => None,
        }),
{
    let mut input_schema = tool.input_schema;
    remove_member(&mut input_schema, "$schema");
    AnthropicTool { name: tool.name, description: tool.description, input_schema }
}

/// Converts the tools, in order.
fn convert_tools(tools: Vec<Tool>) -> (r: Vec<AnthropicTool>)
    ensures
        seq_view(r@) == seq_view(tools@).map_values(|tool: ToolView| converted_tool(tool)),
{
    let mut converted: Vec<AnthropicTool> = Vec::new();
    for tool in rest: tools
        invariant
            rest.seq() == tools@,
            converted@.len() == rest.index(),
            forall|i: int|
                0 <= i < converted@.len() ==> (#[trigger] converted@[i])@ == converted_tool(
                    tools@[i]@,
                ),
    {
        converted.push(convert_tool(tool));
    }
    assert(seq_view(converted@) =~= seq_view(tools@).map_values(
        |tool: ToolView| converted_tool(tool),
    ));
    converted
}

/// The thinking that an effort asks for within a limit of tokens.
pub fn thinking_for(effort: ReasoningEffort, max_tokens: u32) -> (r: AnthropicThinking)
    ensures
        r == (AnthropicThinking::Enable {
            budget_tokens: thinking_budget(effort, max_tokens) as usize,
        }),
        thinking_budget(effort, max_tokens) <= max_tokens,
{
    let budget: u32 = match effort {
        ReasoningEffort::Low => max_tokens / 4,
        ReasoningEffort::Medium => max_tokens / 2,
        ReasoningEffort::High => max_tokens - max_tokens / 4,
    };
    AnthropicThinking::Enable { budget_tokens: budget as usize }
}

/// Builds the request that `options` ask for, with a cache mark that has been read already. The
/// headers among the options are not consulted.
pub fn build_request(
    options: LanguageModelOptions,
    prompt_cache_control: Option<AnthropicCacheControl>,
) -> (r: AnthropicOptions)
    ensures
        r@ == anthropic_request(options@, opt_view(prompt_cache_control)),
{
    let LanguageModelOptions {
        system: given_system,
        messages: given_messages,
        headers: _,
        max_output_tokens,
        tools: given_tools,
        reasoning_effort,
    } = options;
    let ghost conversation = seq_view(given_messages@);
    let mark = prompt_cache_control.as_ref();

    let mut system_prompt_text: Option<String> = match given_system {
        Some(text) => if text.as_str().is_empty() {
            None
        } else {
            Some(text)
        },
        None => None,
    };
    let mut messages: Vec<AnthropicMessageParam> = Vec::new();
    assert(conversation.take(0) =~= Seq::empty());
    assert(seq_view(messages@) =~= Seq::empty());
    for tagged in rest: given_messages
        invariant
            rest.seq() == given_messages@,
            conversation == seq_view(given_messages@),
            opt_view(system_prompt_text) == system_text(
                opt_view(given_system),
                conversation.take(rest.index()),
            ),
            seq_view(messages@) == converted_messages(conversation.take(rest.index())),
    {
        let ghost seen = conversation.take(rest.index());
        let ghost earlier = messages@;
        let ghost current = tagged@;
        assert(conversation.take(rest.index() + 1) =~= seen.push(current));
        assert(seen.push(current).drop_last() =~= seen);
        match tagged.message {
            Message::System(instructions) => {
                if !instructions.content.as_str().is_empty() {
                    system_prompt_text = Some(instructions.content);
                }
            },
            message => {
                if let Some(converted) = convert_message(message) {
                    messages.push(converted);
                    assert(seq_view(messages@) =~= seq_view(earlier).push(converted@));
                }
            },
        }
    }
    assert(conversation.take(conversation.len() as int) =~= conversation);

    let system = match system_prompt_text {
        Some(text) => Some(system_prompt_with_optional_cache(text, mark)),
        None => {
            if let Some(mark) = mark {
                apply_prompt_cache_to_first_user_message(messages.as_mut_slice(), mark);
            }
            None
        },
    };
    let tools = match given_tools {
        Some(list) => Some(convert_tools(list.tools)),
        None => None,
    };
    let thinking = match reasoning_effort {
        Some(effort) => Some(
            thinking_for(
                effort,
                match max_output_tokens {
                    Some(limit) => limit,
                    None => DEFAULT_MAX_TOKENS,
                },
            ),
        ),
        None => None,
    };
    AnthropicOptions { model: "".to_owned(), system, messages, tools, thinking }
}

impl From<LanguageModelOptions> for AnthropicOptions {
    /// Builds the request that `options` ask for, with the cache mark that their headers ask for.
    /// The model is left for the caller to fill in.
    fn from(options: LanguageModelOptions) -> (r: Self)
        ensures
            exists|mark: Option<CacheControlView>| #[trigger]
                cache_control_outcome(options@.headers, mark) && r@ == anthropic_request(
                    options@,
                    mark,
                ),
    {
        let prompt_cache_control = prompt_cache_control_from_headers(options.headers.as_ref());
        build_request(options, prompt_cache_control)
    }
}

impl vstd::std_specs::convert::FromSpecImpl<LanguageModelOptions> for AnthropicOptions {
    /// The strings of a request are new, so only what they hold is determined; the `ensures` of
    /// `from` says what that is.
    open spec fn obeys_from_spec() -> bool {
        false
    }

    open spec fn from_spec(options: LanguageModelOptions) -> AnthropicOptions {
        arbitrary()
    }
}

/// A count that may be missing, zero where it is.
pub open spec fn count_or_zero(count: Option<usize>) -> usize {
    match count {
        Some(count) => count,
        None => 0,
    }
}

/// What the token counts of a whole answer come to; what was written to the cache and what was
/// read from it count as cached.
pub open spec fn usage_of(usage: AnthropicUsage) -> Usage {
    Usage {
        input_tokens: Some(usage.input_tokens),
        output_tokens: Some(usage.output_tokens),
        cached_tokens: Some(
            (usage.cache_creation_input_tokens + usage.cache_read_input_tokens) as usize,
        ),
        reasoning_tokens: None,
    }
}

/// What the token counts that come in with a streamed answer come to; a count that is missing is
/// zero.
pub open spec fn delta_usage_of(usage: AnthropicMessageDeltaUsage) -> Usage {
    Usage {
        input_tokens: Some(count_or_zero(usage.input_tokens)),
        output_tokens: Some(usage.output_tokens),
        cached_tokens: Some(
            (count_or_zero(usage.cache_creation_input_tokens) + count_or_zero(
                usage.cache_read_input_tokens,
            )) as usize,
        ),
        reasoning_tokens: None,
    }
}

impl Usage {
    /// The token counts of a whole answer; what was written to the cache and what was read from it
    /// count as cached.
    pub fn from_anthropic_usage(usage: AnthropicUsage) -> (r: Self)
        requires
            usage.cache_creation_input_tokens + usage.cache_read_input_tokens <= usize::MAX,
        ensures
            r == usage_of(usage),
    {
        Usage {
            input_tokens: Some(usage.input_tokens),
            output_tokens: Some(usage.output_tokens),
            cached_tokens: Some(usage.cache_creation_input_tokens + usage.cache_read_input_tokens),
            reasoning_tokens: None,
        }
    }

    /// The token counts that come in with a streamed answer; a count that is missing is zero.
    pub fn from_anthropic_message_delta_usage(usage: AnthropicMessageDeltaUsage) -> (r: Self)
        requires
            count_or_zero(usage.cache_creation_input_tokens) + count_or_zero(
                usage.cache_read_input_tokens,
            ) <= usize::MAX,
        ensures
            r == delta_usage_of(usage),
    {
        let created: usize = usage.cache_creation_input_tokens.unwrap_or(0);
        let read: usize = usage.cache_read_input_tokens.unwrap_or(0);
        Usage {
            input_tokens: Some(usage.input_tokens.unwrap_or(0)),
            output_tokens: Some(usage.output_tokens),
            cached_tokens: Some(created + read),
            reasoning_tokens: None,
        }
    }
}

} // verus!
