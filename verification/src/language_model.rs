//! The provider-independent request and response of a language model.
use crate::extensions::Extensions;
use crate::messages::{AssistantMessage, AssistantMessageView, TaggedMessage, TaggedMessageView};
use crate::sequences::{opt_view, seq_view};
use crate::tools::{ToolCallInfo, ToolCallInfoView, ToolList, ToolView};
use std::collections::HashMap;
use vstd::prelude::*;

verus! {

/// How much a model should think before it answers.
#[derive(Debug, Clone, Copy, PartialEq, Eq, Structural)]
pub enum ReasoningEffort {
    Low,
    Medium,
    High,
}

/// Token counts of one exchange.
#[derive(Debug, Clone, Copy, PartialEq, Eq, Structural)]
pub struct Usage {
    pub input_tokens: Option<usize>,
    pub output_tokens: Option<usize>,
    pub cached_tokens: Option<usize>,
    pub reasoning_tokens: Option<usize>,
}

/// One piece of what a model answered.
#[derive(Debug, PartialEq)]
pub enum LanguageModelResponseContentType {
    Text(String),
    ToolCall(ToolCallInfo),
    Reasoning { content: String, extensions: Extensions },
    NotSupported(String),
    ToolApprovalRequest(ToolCallInfo),
}

pub enum ContentView {
    Text(Seq<char>),
    ToolCall(ToolCallInfoView),
    Reasoning { content: Seq<char>, signature: Option<Seq<char>> },
    NotSupported(Seq<char>),
    ToolApprovalRequest(ToolCallInfoView),
}

impl View for LanguageModelResponseContentType {
    type V = ContentView;

    open spec fn view(&self) -> ContentView {
        match *self {
            LanguageModelResponseContentType::Text(text) => ContentView::Text(text@),
            LanguageModelResponseContentType::ToolCall(call) => ContentView::ToolCall(call@),
            LanguageModelResponseContentType::Reasoning { content, extensions } => {
                ContentView::Reasoning {
                    content: content@,
                    signature: opt_view(extensions.anthropic_thinking.signature),
                }
            },
            LanguageModelResponseContentType::NotSupported(what) => {
                ContentView::NotSupported(what@)
            },
            LanguageModelResponseContentType::ToolApprovalRequest(call) => {
                ContentView::ToolApprovalRequest(call@)
            },
        }
    }
}

/// A whole answer.
#[derive(Debug, PartialEq)]
pub struct LanguageModelResponse {
    pub contents: Vec<LanguageModelResponseContentType>,
    pub usage: Option<Usage>,
}

pub struct LanguageModelResponseView {
    pub contents: Seq<ContentView>,
    pub usage: Option<Usage>,
}

impl View for LanguageModelResponse {
    type V = LanguageModelResponseView;

    open spec fn view(&self) -> LanguageModelResponseView {
        LanguageModelResponseView { contents: seq_view(self.contents@), usage: self.usage }
    }
}

/// A fragment of an answer that is still coming in.
#[derive(Debug, Clone, PartialEq)]
pub enum LanguageModelStreamChunkType {
    Text(String),
    ToolCall(String),
    Failed(String),
}

pub enum DeltaView {
    Text(Seq<char>),
    ToolCall(Seq<char>),
    Failed(Seq<char>),
}

impl View for LanguageModelStreamChunkType {
    type V = DeltaView;

    open spec fn view(&self) -> DeltaView {
        match *self {
            LanguageModelStreamChunkType::Text(text) => DeltaView::Text(text@),
            LanguageModelStreamChunkType::ToolCall(arguments) => DeltaView::ToolCall(arguments@),
            LanguageModelStreamChunkType::Failed(reason) => DeltaView::Failed(reason@),
        }
    }
}

/// One step of a streamed answer: a fragment, or a message that is complete.
#[derive(Debug, PartialEq)]
pub enum LanguageModelStreamChunk {
    Delta(LanguageModelStreamChunkType),
    Done(AssistantMessage),
}

pub enum StreamChunkView {
    Delta(DeltaView),
    Done(AssistantMessageView),
}

impl View for LanguageModelStreamChunk {
    type V = StreamChunkView;

    open spec fn view(&self) -> StreamChunkView {
        match *self {
            LanguageModelStreamChunk::Delta(delta) => StreamChunkView::Delta(delta@),
            LanguageModelStreamChunk::Done(message) => StreamChunkView::Done(message@),
        }
    }
}

/// What a caller asks of a language model.
#[derive(Debug, PartialEq)]
pub struct LanguageModelOptions {
    pub system: Option<String>,
    pub messages: Vec<TaggedMessage>,
    pub headers: Option<HashMap<String, String>>,
    pub max_output_tokens: Option<u32>,
    pub tools: Option<ToolList>,
    pub reasoning_effort: Option<ReasoningEffort>,
}

pub struct LanguageModelOptionsView {
    pub system: Option<Seq<char>>,
    pub messages: Seq<TaggedMessageView>,
    pub headers: Option<Map<String, String>>,
    pub max_output_tokens: Option<u32>,
    pub tools: Option<Seq<ToolView>>,
    pub reasoning_effort: Option<ReasoningEffort>,
}

impl View for LanguageModelOptions {
    type V = LanguageModelOptionsView;

    open spec fn view(&self) -> LanguageModelOptionsView {
        LanguageModelOptionsView {
            system: opt_view(self.system),
            messages: seq_view(self.messages@),
            headers: opt_view(self.headers),
            max_output_tokens: self.max_output_tokens,
            tools: opt_view(self.tools),
            reasoning_effort: self.reasoning_effort,
        }
    }
}

impl Default for LanguageModelOptions {
    /// A request for nothing: no system prompt, no messages, no headers, no tools, no limits.
    fn default() -> (r: Self)
        ensures
            r@ == (LanguageModelOptionsView {
                system: None,
                messages: Seq::empty(),
                headers: None,
                max_output_tokens: None,
                tools: None,
                reasoning_effort: None,
            }),
    {
        let r = LanguageModelOptions {
            system: None,
            messages: Vec::new(),
            headers: None,
            max_output_tokens: None,
            tools: None,
            reasoning_effort: None,
        };
        assert(r@.messages =~= Seq::empty());
        r
    }
}

} // verus!
