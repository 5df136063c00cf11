//! The views that contracts speak of leave nothing out and change nothing.
use crate::language_model::{
    ContentView, DeltaView, LanguageModelOptions, LanguageModelResponse,
    LanguageModelResponseContentType, LanguageModelStreamChunk, LanguageModelStreamChunkType,
    StreamChunkView,
};
use crate::messages::{AssistantMessage, Message, MessageView, TaggedMessage};
use crate::providers::anthropic::client::{
    AnthropicAssistantMessageParamContent, AnthropicCacheControl, AnthropicMessageParam,
    AnthropicOptions, AnthropicSystemMessageContentBlock, AnthropicSystemPrompt, AnthropicTool,
    AnthropicUserMessageContent, AnthropicUserMessageContentBlock, AssistantBlockView,
    MessageParamView, SystemPromptView, UserBlockView, UserContentView,
};
use crate::providers::openai_chat_completions::stream::{AccumulatedToolCall, StreamState};
use crate::providers::openai_chat_completions::types::{
    CacheControl, ChatCompletionsOptions, ChatCompletionsResponse, ChatCompletionsStreamEvent,
    ChatContentView, ChatMessage, ChatMessageContent, ChatMessageContentPart, Choice, PartView,
    StreamChoice, StreamEventView, ToolCall, ToolCallDelta,
};
use crate::sequences::{opt_view, seq_view};
use crate::tools::{Tool, ToolCallInfo, ToolList, ToolResultInfo};
use vstd::prelude::*;
use vstd::std_specs::convert::FromSpec;

verus! {

/// `shown` shows a value that may be missing: it is missing exactly if the value is.
pub open spec fn shows<T: View>(shown: Option<T::V>, value: Option<T>) -> bool {
    match value {
        Some(inner) => shown == Some(inner@),
        None => shown is None,
    }
}

/// `shown` shows the values, as many and in the same order.
pub open spec fn shows_all<T: View>(shown: Seq<T::V>, values: Seq<T>) -> bool {
    &&& shown.len() == values.len()
    &&& forall|i: int| 0 <= i < values.len() ==> #[trigger] shown[i] == values[i]@
}

/// A missing value is shown as missing, and of several values each is shown in its place.
pub proof fn options_and_sequences_are_shown<T: View>(value: Option<T>, values: Seq<T>)
    ensures
        shows(opt_view(value), value),
        shows_all(seq_view(values), values),
{
}

/// Tools, calls and results show their names, ids, inputs and outputs.
pub proof fn tools_show_what_they_hold(
    call: ToolCallInfo,
    result: ToolResultInfo,
    tool: Tool,
    list: ToolList,
)
    ensures
        call@.tool.name == call.tool.name@,
        call@.tool.id == call.tool.id@,
        call@.input == call.input,
        result@.tool.name == result.tool.name@,
        result@.tool.id == result.tool.id@,
        result@.output == result.output,
        tool@.name == tool.name@,
        tool@.description == tool.description@,
        tool@.input_schema == tool.input_schema,
        shows_all(list@, list.tools@),
{
}

/// A piece of content shows its kind and all that it holds.
pub proof fn contents_show_what_they_hold(content: LanguageModelResponseContentType)
    ensures
        match content {
            LanguageModelResponseContentType::Text(text) => content@ == ContentView::Text(text@),
            LanguageModelResponseContentType::ToolCall(call) => content@ == ContentView::ToolCall(
                call@,
            ),
            LanguageModelResponseContentType::Reasoning { content: thought, extensions } => {
                &&& content@ matches ContentView::Reasoning { content, signature }
                &&& content == thought@
                &&& shows(signature, extensions.anthropic_thinking.signature)
            },
            LanguageModelResponseContentType::NotSupported(what) => content@
                == ContentView::NotSupported(what@),
            LanguageModelResponseContentType::ToolApprovalRequest(call) => content@
                == ContentView::ToolApprovalRequest(call@),
        },
{
}

/// A message shows its kind and all that it holds.
pub proof fn messages_show_what_they_hold(
    message: Message,
    tagged: TaggedMessage,
    assistant: AssistantMessage,
)
    ensures
        match message {
            Message::System(system) => message@ == MessageView::System(system.content@),
            Message::User(user) => message@ == MessageView::User(user.content@),
            Message::Assistant(assistant) => message@ == MessageView::Assistant(assistant@),
            Message::Tool(result) => message@ == MessageView::Tool(result@),
            Message::Developer(text) => message@ == MessageView::Developer(text@),
            Message::ToolApproval(approval) => message@ == (MessageView::ToolApproval {
                id: approval.id@,
                approved: approval.approved,
            }),
        },
        tagged@.step_id == tagged.step_id,
        tagged@.message == tagged.message@,
        assistant@.content == assistant.content@,
        assistant@.usage == assistant.usage,
{
}

/// A message that is tagged stays the message that it was.
pub proof fn tagging_keeps_the_message(message: Message)
    ensures
        <TaggedMessage as FromSpec<Message>>::from_spec(message).message == message,
{
}

/// Requests and answers show all that they hold, and so does each step of a stream.
pub proof fn requests_and_answers_show_what_they_hold(
    options: LanguageModelOptions,
    response: LanguageModelResponse,
    chunk: LanguageModelStreamChunk,
    delta: LanguageModelStreamChunkType,
)
    ensures
        shows(options@.system, options.system),
        shows_all(options@.messages, options.messages@),
        shows(options@.headers, options.headers),
        options@.max_output_tokens == options.max_output_tokens,
        shows(options@.tools, options.tools),
        options@.reasoning_effort == options.reasoning_effort,
        shows_all(response@.contents, response.contents@),
        response@.usage == response.usage,
        match chunk {
            LanguageModelStreamChunk::Delta(delta) => chunk@ == StreamChunkView::Delta(delta@),
            LanguageModelStreamChunk::Done(message) => chunk@ == StreamChunkView::Done(message@),
        },
        match delta {
            LanguageModelStreamChunkType::Text(text) => delta@ == DeltaView::Text(text@),
            LanguageModelStreamChunkType::ToolCall(text) => delta@ == DeltaView::ToolCall(text@),
            LanguageModelStreamChunkType::Failed(text) => delta@ == DeltaView::Failed(text@),
        },
{
}

/// Anthropic's blocks and prompts show their kind and all that they hold.
pub proof fn anthropic_blocks_show_what_they_hold(
    mark: AnthropicCacheControl,
    system_block: AnthropicSystemMessageContentBlock,
    prompt: AnthropicSystemPrompt,
    user_block: AnthropicUserMessageContentBlock,
    user_content: AnthropicUserMessageContent,
    assistant_block: AnthropicAssistantMessageParamContent,
)
    ensures
        mark@.type_ == mark.type_@,
        shows(mark@.ttl, mark.ttl),
        match system_block {
            AnthropicSystemMessageContentBlock::Text { text, cache_control } => {
                &&& system_block@.text == text@
                &&& shows(system_block@.cache_control, cache_control)
            },
        },
        match prompt {
            AnthropicSystemPrompt::Text(text) => prompt@ == SystemPromptView::Text(text@),
            AnthropicSystemPrompt::Blocks(blocks) => {
                &&& prompt@ matches SystemPromptView::Blocks(shown)
                &&& shows_all(shown, blocks@)
            },
        },
        match user_block {
            AnthropicUserMessageContentBlock::Text { text: said, cache_control: given } => {
                &&& user_block@ matches UserBlockView::Text { text, cache_control }
                &&& text == said@
                &&& shows(cache_control, given)
            },
            AnthropicUserMessageContentBlock::ToolResult { tool_use_id, content } => user_block@
                == (UserBlockView::ToolResult { tool_use_id: tool_use_id@, content: content@ }),
        },
        match user_content {
            AnthropicUserMessageContent::Text(text) => user_content@ == UserContentView::Text(
                text@,
            ),
            AnthropicUserMessageContent::Blocks(blocks) => {
                &&& user_content@ matches UserContentView::Blocks(shown)
                &&& shows_all(shown, blocks@)
            },
        },
        match assistant_block {
            AnthropicAssistantMessageParamContent::Text { text } => assistant_block@
                == (AssistantBlockView::Text { text: text@ }),
            AnthropicAssistantMessageParamContent::ToolUse { id, input, name } => assistant_block@
                == (AssistantBlockView::ToolUse { id: id@, input, name: name@ }),
            AnthropicAssistantMessageParamContent::Thinking { thinking, signature } => {
                assistant_block@ == (AssistantBlockView::Thinking {
                    thinking: thinking@,
                    signature: signature@,
                })
            },
        },
{
}

/// Anthropic's messages, tools and requests show all that they hold.
pub proof fn anthropic_requests_show_what_they_hold(
    message: AnthropicMessageParam,
    tool: AnthropicTool,
    request: AnthropicOptions,
)
    ensures
        match message {
            AnthropicMessageParam::User { content } => message@ == (MessageParamView::User {
                content: content@,
            }),
            AnthropicMessageParam::Assistant { content: blocks } => {
                &&& message@ matches MessageParamView::Assistant { content }
                &&& shows_all(content, blocks@)
            },
        },
        tool@.name == tool.name@,
        tool@.description == tool.description@,
        tool@.input_schema == tool.input_schema,
        request@.model == request.model@,
        shows(request@.system, request.system),
        shows_all(request@.messages, request.messages@),
        request@.tools is Some <==> request.tools is Some,
        request.tools matches Some(tools) ==> shows_all(request@.tools->0, tools@),
        request@.thinking == request.thinking,
{
}

/// The parts of a chat message show their kind and all that they hold.
pub proof fn chat_parts_show_what_they_hold(
    mark: CacheControl,
    part: ChatMessageContentPart,
    content: ChatMessageContent,
)
    ensures
        mark@.type_ == mark.type_@,
        shows(mark@.ttl, mark.ttl),
        match part {
            ChatMessageContentPart::Text(held) => {
                &&& part@ matches PartView::Text { text, cache_control, extra }
                &&& text == held.text@
                &&& shows(cache_control, held.cache_control)
                &&& extra == held.extra@
            },
            ChatMessageContentPart::ImageUrl(held) => {
                &&& part@ matches PartView::ImageUrl { url, cache_control }
                &&& url == held.url@
                &&& shows(cache_control, held.cache_control)
            },
            ChatMessageContentPart::InputAudio(held) => {
                &&& part@ matches PartView::InputAudio { data, format, cache_control }
                &&& data == held.data@
                &&& format == held.format@
                &&& shows(cache_control, held.cache_control)
            },
            ChatMessageContentPart::File(held) => {
                &&& part@ matches PartView::File { file_id, cache_control }
                &&& file_id == held.file_id@
                &&& shows(cache_control, held.cache_control)
            },
        },
        match content {
            ChatMessageContent::Text(text) => content@ == ChatContentView::Text(text@),
            ChatMessageContent::Parts(parts) => {
                &&& content@ matches ChatContentView::Parts(shown)
                &&& shows_all(shown, parts@)
            },
        },
{
}

/// Chat messages, requests and responses show all that they hold.
pub proof fn chats_show_what_they_hold(
    call: ToolCall,
    message: ChatMessage,
    options: ChatCompletionsOptions,
    choice: Choice,
    response: ChatCompletionsResponse,
)
    ensures
        call@.id == call.id@,
        call@.name == call.function.name@,
        call@.arguments == call.function.arguments@,
        message@.role == message.role,
        shows(message@.content, message.content),
        shows(message@.name, message.name),
        message@.tool_calls is Some <==> message.tool_calls is Some,
        message.tool_calls matches Some(calls) ==> shows_all(message@.tool_calls->0, calls@),
        shows(message@.tool_call_id, message.tool_call_id),
        options@.model == options.model@,
        shows_all(options@.messages, options.messages@),
        options@.stream == options.stream,
        options@.stream_options == options.stream_options,
        choice@ == choice.message@,
        shows_all(response@.choices, response.choices@),
        response@.usage == response.usage,
{
}

/// The events of a stream and what they bring show all that they hold; a fragment of an answer that
/// brings no tool calls shows none.
pub proof fn streams_show_what_they_hold(
    delta: ToolCallDelta,
    choice: StreamChoice,
    event: ChatCompletionsStreamEvent,
)
    ensures
        delta@.index == delta.index,
        shows(delta@.id, delta.id),
        match delta.function {
            Some(function) => {
                &&& shows(delta@.name, function.name)
                &&& shows(delta@.arguments, function.arguments)
            },
            None => delta@.name is None && delta@.arguments is None,
        },
        shows(choice@.content, choice.delta.content),
        match choice.delta.tool_calls {
            Some(calls) => shows_all(choice@.tool_calls, calls@),
            None => choice@.tool_calls.len() == 0,
        },
        shows(choice@.finish_reason, choice.finish_reason),
        match event {
            ChatCompletionsStreamEvent::Open => event@ is Open,
            ChatCompletionsStreamEvent::Done => event@ is Done,
            ChatCompletionsStreamEvent::Error(reason) => event@ == StreamEventView::Error(reason@),
            ChatCompletionsStreamEvent::Chunk(chunk) => {
                &&& event@ matches StreamEventView::Chunk { choices, usage }
                &&& shows_all(choices, chunk.choices@)
                &&& usage == chunk.usage
            },
        },
{
}

/// The state of a stream shows every call that has come in, under its index.
pub proof fn the_state_of_a_stream_shows_its_calls(
    call: AccumulatedToolCall,
    state: StreamState,
    index: u32,
)
    ensures
        call@.id == call.id@,
        call@.name == call.name@,
        call@.arguments == call.arguments@,
        state@.contains_key(index) <==> state.tool_calls@.contains_key(index),
        state@.contains_key(index) ==> state@[index] == state.tool_calls@[index]@,
{
}

} // verus!
