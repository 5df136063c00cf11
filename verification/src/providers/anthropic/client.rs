//! The request and usage types of Anthropic's messages API.
use crate::sequences::{opt_view, seq_view};
use serde_json::Value;
use vstd::prelude::*;

verus! {

/// A mark up to which a prompt is kept in the provider's cache.
#[derive(Debug, PartialEq)]
pub struct AnthropicCacheControl {
    pub type_: String,
    pub ttl: Option<String>,
}

pub struct CacheControlView {
    pub type_: Seq<char>,
    pub ttl: Option<Seq<char>>,
}

impl View for AnthropicCacheControl {
    type V = CacheControlView;

    open spec fn view(&self) -> CacheControlView {
        CacheControlView { type_: self.type_@, ttl: opt_view(self.ttl) }
    }
}

impl Clone for AnthropicCacheControl {
    fn clone(&self) -> (r: Self)
        ensures
            r == *self,
    {
        let ttl = match &self.ttl {
            Some(ttl) => Some(ttl.clone()),
            None => None,
        };
        AnthropicCacheControl { type_: self.type_.clone(), ttl }
    }
}

/// A part of the system prompt.
#[derive(Debug, Clone, PartialEq)]
pub enum AnthropicSystemMessageContentBlock {
    Text { text: String, cache_control: Option<AnthropicCacheControl> },
}

pub struct SystemBlockView {
    pub text: Seq<char>,
    pub cache_control: Option<CacheControlView>,
}

impl View for AnthropicSystemMessageContentBlock {
    type V = SystemBlockView;

    open spec fn view(&self) -> SystemBlockView {
        match *self {
            AnthropicSystemMessageContentBlock::Text { text, cache_control } => SystemBlockView {
                text: text@,
                cache_control: opt_view(cache_control),
            },
        }
    }
}

/// The system prompt, plain or in parts.
#[derive(Debug, Clone, PartialEq)]
pub enum AnthropicSystemPrompt {
    Text(String),
    Blocks(Vec<AnthropicSystemMessageContentBlock>),
}

pub enum SystemPromptView {
    Text(Seq<char>),
    Blocks(Seq<SystemBlockView>),
}

impl View for AnthropicSystemPrompt {
    type V = SystemPromptView;

    open spec fn view(&self) -> SystemPromptView {
        match *self {
            AnthropicSystemPrompt::Text(text) => SystemPromptView::Text(text@),
            AnthropicSystemPrompt::Blocks(blocks) => SystemPromptView::Blocks(seq_view(blocks@)),
        }
    }
}

/// A part of a user message.
#[derive(Debug, Clone, PartialEq)]
pub enum AnthropicUserMessageContentBlock {
    Text { text: String, cache_control: Option<AnthropicCacheControl> },
    ToolResult { tool_use_id: String, content: String },
}

pub enum UserBlockView {
    Text { text: Seq<char>, cache_control: Option<CacheControlView> },
    ToolResult { tool_use_id: Seq<char>, content: Seq<char> },
}

impl View for AnthropicUserMessageContentBlock {
    type V = UserBlockView;

    open spec fn view(&self) -> UserBlockView {
        match *self {
            AnthropicUserMessageContentBlock::Text { text, cache_control } => UserBlockView::Text {
                text: text@,
                cache_control: opt_view(cache_control),
            },
            AnthropicUserMessageContentBlock::ToolResult { tool_use_id, content } => {
                UserBlockView::ToolResult { tool_use_id: tool_use_id@, content: content@ }
            },
        }
    }
}

/// The content of a user message, plain or in parts.
#[derive(Debug, Clone, PartialEq)]
pub enum AnthropicUserMessageContent {
    Text(String),
    Blocks(Vec<AnthropicUserMessageContentBlock>),
}

pub enum UserContentView {
    Text(Seq<char>),
    Blocks(Seq<UserBlockView>),
}

impl View for AnthropicUserMessageContent {
    type V = UserContentView;

    open spec fn view(&self) -> UserContentView {
        match *self {
            AnthropicUserMessageContent::Text(text) => UserContentView::Text(text@),
            AnthropicUserMessageContent::Blocks(blocks) => {
                UserContentView::Blocks(seq_view(blocks@))
            },
        }
    }
}

/// A part of an assistant message.
#[derive(Debug, PartialEq)]
pub enum AnthropicAssistantMessageParamContent {
    Text { text: String },
    ToolUse { id: String, input: Value, name: String },
    Thinking { thinking: String, signature: String },
}

pub enum AssistantBlockView {
    Text { text: Seq<char> },
    ToolUse { id: Seq<char>, input: Value, name: Seq<char> },
    Thinking { thinking: Seq<char>, signature: Seq<char> },
}

impl View for AnthropicAssistantMessageParamContent {
    type V = AssistantBlockView;

    open spec fn view(&self) -> AssistantBlockView {
        match *self {
            AnthropicAssistantMessageParamContent::Text { text } => AssistantBlockView::Text {
                text: text@,
            },
            AnthropicAssistantMessageParamContent::ToolUse { id, input, name } => {
                AssistantBlockView::ToolUse { id: id@, input, name: name@ }
            },
            AnthropicAssistantMessageParamContent::Thinking { thinking, signature } => {
                AssistantBlockView::Thinking { thinking: thinking@, signature: signature@ }
            },
        }
    }
}

/// One message of the request.
#[derive(Debug, PartialEq)]
pub enum AnthropicMessageParam {
    User { content: AnthropicUserMessageContent },
    Assistant { content: Vec<AnthropicAssistantMessageParamContent> },
}

pub enum MessageParamView {
    User { content: UserContentView },
    Assistant { content: Seq<AssistantBlockView> },
}

impl View for AnthropicMessageParam {
    type V = MessageParamView;

    open spec fn view(&self) -> MessageParamView {
        match *self {
            AnthropicMessageParam::User { content } => MessageParamView::User { content: content@ },
            AnthropicMessageParam::Assistant { content } => MessageParamView::Assistant {
                content: seq_view(content@),
            },
        }
    }
}

/// A tool that the model may use.
#[derive(Debug, PartialEq)]
pub struct AnthropicTool {
    pub name: String,
    pub description: String,
    pub input_schema: Value,
}

pub struct AnthropicToolView {
    pub name: Seq<char>,
    pub description: Seq<char>,
    pub input_schema: Value,
}

impl View for AnthropicTool {
    type V = AnthropicToolView;

    open spec fn view(&self) -> AnthropicToolView {
        AnthropicToolView {
            name: self.name@,
            description: self.description@,
            input_schema: self.input_schema,
        }
    }
}

/// Whether, and within what budget, the model thinks before it answers.
#[derive(Debug, Clone, Copy, PartialEq, Eq, Structural)]
pub enum AnthropicThinking {
    Enable { budget_tokens: usize },
}

/// The parts of a request that follow from what the caller asked for.
#[derive(Debug, PartialEq)]
pub struct AnthropicOptions {
    pub model: String,
    pub system: Option<AnthropicSystemPrompt>,
    pub messages: Vec<AnthropicMessageParam>,
    pub tools: Option<Vec<AnthropicTool>>,
    pub thinking: Option<AnthropicThinking>,
}

pub struct AnthropicOptionsView {
    pub model: Seq<char>,
    pub system: Option<SystemPromptView>,
    pub messages: Seq<MessageParamView>,
    pub tools: Option<Seq<AnthropicToolView>>,
    pub thinking: Option<AnthropicThinking>,
}

impl View for AnthropicOptions {
    type V = AnthropicOptionsView;

    open spec fn view(&self) -> AnthropicOptionsView {
        AnthropicOptionsView {
            model: self.model@,
            system: opt_view(self.system),
            messages: seq_view(self.messages@),
            tools: match self.tools {
                Some(tools) => Some(seq_view(tools@)),
                None => None,
            },
            thinking: self.thinking,
        }
    }
}

/// Token counts of a whole answer.
#[derive(Debug, Clone, Copy, PartialEq, Eq, Structural)]
pub struct AnthropicUsage {
    pub input_tokens: usize,
    pub output_tokens: usize,
    pub cache_creation_input_tokens: usize,
    pub cache_read_input_tokens: usize,
}

/// Token counts as they come in with a streamed answer.
#[derive(Debug, Clone, Copy, PartialEq, Eq, Structural)]
pub struct AnthropicMessageDeltaUsage {
    pub input_tokens: Option<usize>,
    pub output_tokens: usize,
    pub cache_creation_input_tokens: Option<usize>,
    pub cache_read_input_tokens: Option<usize>,
}

} // verus!
