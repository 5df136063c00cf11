//! The request, response and stream types of the chat-completions API.
use crate::language_model::Usage;
use crate::sequences::{opt_view, seq_view};
use serde_json::Value;
use std::collections::HashMap;
use vstd::prelude::*;

verus! {

/// A mark up to which a prompt is kept in the provider's cache.
#[derive(Debug, Clone, PartialEq)]
pub struct CacheControl {
    pub type_: String,
    pub ttl: Option<String>,
}

pub struct CacheControlView {
    pub type_: Seq<char>,
    pub ttl: Option<Seq<char>>,
}

impl View for CacheControl {
    type V = CacheControlView;

    open spec fn view(&self) -> CacheControlView {
        CacheControlView { type_: self.type_@, ttl: opt_view(self.ttl) }
    }
}

/// Who speaks in a message.
#[derive(Debug, Clone, Copy, PartialEq, Eq, Structural)]
pub enum Role {
    System,
    Developer,
    User,
    Assistant,
    Tool,
}

/// Text within a message, with whatever fields a provider adds.
#[derive(Debug, Clone, PartialEq)]
pub struct ChatMessageContentPartText {
    pub text: String,
    pub cache_control: Option<CacheControl>,
    pub extra: HashMap<String, Value>,
}

/// A picture within a message.
#[derive(Debug, Clone, PartialEq)]
pub struct ChatMessageContentPartImageUrl {
    pub url: String,
    pub cache_control: Option<CacheControl>,
}

/// A recording within a message.
#[derive(Debug, Clone, PartialEq)]
pub struct ChatMessageContentPartInputAudio {
    pub data: String,
    pub format: String,
    pub cache_control: Option<CacheControl>,
}

/// A file within a message.
#[derive(Debug, Clone, PartialEq)]
pub struct ChatMessageContentPartFile {
    pub file_id: String,
    pub cache_control: Option<CacheControl>,
}

/// A part of a message.
#[derive(Debug, Clone, PartialEq)]
pub enum ChatMessageContentPart {
    Text(ChatMessageContentPartText),
    ImageUrl(ChatMessageContentPartImageUrl),
    InputAudio(ChatMessageContentPartInputAudio),
    File(ChatMessageContentPartFile),
}

pub enum PartView {
    Text {
        text: Seq<char>,
        cache_control: Option<CacheControlView>,
        extra: Map<String, Value>,
    },
    ImageUrl { url: Seq<char>, cache_control: Option<CacheControlView> },
    InputAudio { data: Seq<char>, format: Seq<char>, cache_control: Option<CacheControlView> },
    File { file_id: Seq<char>, cache_control: Option<CacheControlView> },
}

impl View for ChatMessageContentPart {
    type V = PartView;

    open spec fn view(&self) -> PartView {
        match *self {
            ChatMessageContentPart::Text(part) => PartView::Text {
                text: part.text@,
                cache_control: opt_view(part.cache_control),
                extra: part.extra@,
            },
            ChatMessageContentPart::ImageUrl(part) => PartView::ImageUrl {
                url: part.url@,
                cache_control: opt_view(part.cache_control),
            },
            ChatMessageContentPart::InputAudio(part) => PartView::InputAudio {
                data: part.data@,
                format: part.format@,
                cache_control: opt_view(part.cache_control),
            },
            ChatMessageContentPart::File(part) => PartView::File {
                file_id: part.file_id@,
                cache_control: opt_view(part.cache_control),
            },
        }
    }
}

/// The content of a message, plain or in parts.
#[derive(Debug, Clone, PartialEq)]
pub enum ChatMessageContent {
    Text(String),
    Parts(Vec<ChatMessageContentPart>),
}

pub enum ChatContentView {
    Text(Seq<char>),
    Parts(Seq<PartView>),
}

impl View for ChatMessageContent {
    type V = ChatContentView;

    open spec fn view(&self) -> ChatContentView {
        match *self {
            ChatMessageContent::Text(text) => ChatContentView::Text(text@),
            ChatMessageContent::Parts(parts) => ChatContentView::Parts(seq_view(parts@)),
        }
    }
}

impl ChatMessageContent {
    /// Plain text.
    pub fn text(text: &str) -> (r: Self)
        ensures
            r@ == ChatContentView::Text(text@),
    {
        ChatMessageContent::Text(text.to_owned())
    }
}

/// The function that a tool call runs, with its arguments as JSON text.
#[derive(Debug, Clone, PartialEq)]
pub struct FunctionCall {
    pub name: String,
    pub arguments: String,
}

/// A call of a tool.
#[derive(Debug, Clone, PartialEq)]
pub struct ToolCall {
    pub id: String,
    pub function: FunctionCall,
}

pub struct ToolCallView {
    pub id: Seq<char>,
    pub name: Seq<char>,
    pub arguments: Seq<char>,
}

impl View for ToolCall {
    type V = ToolCallView;

    open spec fn view(&self) -> ToolCallView {
        ToolCallView {
            id: self.id@,
            name: self.function.name@,
            arguments: self.function.arguments@,
        }
    }
}

/// One message of a chat.
#[derive(Debug, Clone, PartialEq)]
pub struct ChatMessage {
    pub role: Role,
    pub content: Option<ChatMessageContent>,
    pub name: Option<String>,
    pub tool_calls: Option<Vec<ToolCall>>,
    pub tool_call_id: Option<String>,
}

pub struct ChatMessageView {
    pub role: Role,
    pub content: Option<ChatContentView>,
    pub name: Option<Seq<char>>,
    pub tool_calls: Option<Seq<ToolCallView>>,
    pub tool_call_id: Option<Seq<char>>,
}

impl View for ChatMessage {
    type V = ChatMessageView;

    open spec fn view(&self) -> ChatMessageView {
        ChatMessageView {
            role: self.role,
            content: opt_view(self.content),
            name: opt_view(self.name),
            tool_calls: match self.tool_calls {
                Some(calls) => Some(seq_view(calls@)),
                None => None,
            },
            tool_call_id: opt_view(self.tool_call_id),
        }
    }
}

/// What a stream should hold beside the answer.
#[derive(Debug, Clone, Copy, PartialEq, Eq, Structural)]
pub struct StreamOptions {
    pub include_usage: Option<bool>,
    pub include_obfuscation: Option<bool>,
}

/// A chat request.
#[derive(Debug, Clone, PartialEq)]
pub struct ChatCompletionsOptions {
    pub model: String,
    pub messages: Vec<ChatMessage>,
    pub stream: Option<bool>,
    pub stream_options: Option<StreamOptions>,
}

pub struct ChatCompletionsOptionsView {
    pub model: Seq<char>,
    pub messages: Seq<ChatMessageView>,
    pub stream: Option<bool>,
    pub stream_options: Option<StreamOptions>,
}

impl View for ChatCompletionsOptions {
    type V = ChatCompletionsOptionsView;

    open spec fn view(&self) -> ChatCompletionsOptionsView {
        ChatCompletionsOptionsView {
            model: self.model@,
            messages: seq_view(self.messages@),
            stream: self.stream,
            stream_options: self.stream_options,
        }
    }
}

impl Default for ChatCompletionsOptions {
    /// A request without a model or messages.
    fn default() -> (r: Self)
        ensures
            r@ == (ChatCompletionsOptionsView {
                model: Seq::empty(),
                messages: Seq::empty(),
                stream: None,
                stream_options: None,
            }),
    {
        let r = ChatCompletionsOptions {
            model: String::new(),
            messages: Vec::new(),
            stream: None,
            stream_options: None,
        };
        assert(r@.messages =~= Seq::empty());
        r
    }
}

/// One of the answers in a response.
#[derive(Debug, Clone, PartialEq)]
pub struct Choice {
    pub message: ChatMessage,
}

/// A whole response.
#[derive(Debug, Clone, PartialEq)]
pub struct ChatCompletionsResponse {
    pub choices: Vec<Choice>,
    pub usage: Option<Usage>,
}

pub struct ChatCompletionsResponseView {
    pub choices: Seq<ChatMessageView>,
    pub usage: Option<Usage>,
}

impl View for Choice {
    type V = ChatMessageView;

    open spec fn view(&self) -> ChatMessageView {
        self.message@
    }
}

impl View for ChatCompletionsResponse {
    type V = ChatCompletionsResponseView;

    open spec fn view(&self) -> ChatCompletionsResponseView {
        ChatCompletionsResponseView { choices: seq_view(self.choices@), usage: self.usage }
    }
}

/// A fragment of the function that a tool call runs.
#[derive(Debug, Clone, PartialEq)]
pub struct FunctionDelta {
    pub name: Option<String>,
    pub arguments: Option<String>,
}

/// A fragment of a tool call; `index` tells the calls of one answer apart.
#[derive(Debug, Clone, PartialEq)]
pub struct ToolCallDelta {
    pub index: u32,
    pub id: Option<String>,
    pub function: Option<FunctionDelta>,
}

pub struct ToolCallDeltaView {
    pub index: u32,
    pub id: Option<Seq<char>>,
    pub name: Option<Seq<char>>,
    pub arguments: Option<Seq<char>>,
}

impl View for ToolCallDelta {
    type V = ToolCallDeltaView;

    open spec fn view(&self) -> ToolCallDeltaView {
        ToolCallDeltaView {
            index: self.index,
            id: opt_view(self.id),
            name: match self.function {
                Some(function) => opt_view(function.name),
                None => None,
            },
            arguments: match self.function {
                Some(function) => opt_view(function.arguments),
                None => None,
            },
        }
    }
}

/// A fragment of an answer.
#[derive(Debug, Clone, PartialEq)]
pub struct Delta {
    pub content: Option<String>,
    pub tool_calls: Option<Vec<ToolCallDelta>>,
}

/// A fragment of one of the answers, with the reason why the answer ends if this is its end.
#[derive(Debug, Clone, PartialEq)]
pub struct StreamChoice {
    pub delta: Delta,
    pub finish_reason: Option<String>,
}

pub struct StreamChoiceView {
    pub content: Option<Seq<char>>,
    pub tool_calls: Seq<ToolCallDeltaView>,
    pub finish_reason: Option<Seq<char>>,
}

impl View for StreamChoice {
    type V = StreamChoiceView;

    /// A choice without tool calls is one with none.
    open spec fn view(&self) -> StreamChoiceView {
        StreamChoiceView {
            content: opt_view(self.delta.content),
            tool_calls: match self.delta.tool_calls {
                Some(calls) => seq_view(calls@),
                None => Seq::empty(),
            },
            finish_reason: opt_view(self.finish_reason),
        }
    }
}

/// One chunk of a stream.
#[derive(Debug, Clone, PartialEq)]
pub struct ChatCompletionsStreamChunk {
    pub choices: Vec<StreamChoice>,
    pub usage: Option<Usage>,
}

/// What comes in over a stream.
#[derive(Debug, Clone, PartialEq)]
pub enum ChatCompletionsStreamEvent {
    Open,
    Chunk(ChatCompletionsStreamChunk),
    Done,
    Error(String),
}

pub enum StreamEventView {
    Open,
    Chunk { choices: Seq<StreamChoiceView>, usage: Option<Usage> },
    Done,
    Error(Seq<char>),
}

impl View for ChatCompletionsStreamEvent {
    type V = StreamEventView;

    open spec fn view(&self) -> StreamEventView {
        match *self {
            ChatCompletionsStreamEvent::Open => StreamEventView::Open,
            ChatCompletionsStreamEvent::Chunk(chunk) => StreamEventView::Chunk {
                choices: seq_view(chunk.choices@),
                usage: chunk.usage,
            },
            ChatCompletionsStreamEvent::Done => StreamEventView::Done,
            ChatCompletionsStreamEvent::Error(reason) => StreamEventView::Error(reason@),
        }
    }
}

} // verus!
