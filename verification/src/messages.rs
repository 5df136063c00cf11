//! The messages of a conversation.
use crate::language_model::{ContentView, LanguageModelResponseContentType, Usage};
use crate::tools::{ToolResultInfo, ToolResultInfoView};
use vstd::prelude::*;

verus! {

/// Instructions that stand above the conversation.
#[derive(Debug, Clone, PartialEq)]
pub struct SystemMessage {
    pub content: String,
}

/// What the user said.
#[derive(Debug, Clone, PartialEq)]
pub struct UserMessage {
    pub content: String,
}

impl UserMessage {
    pub fn new(content: &str) -> (r: Self)
        ensures
            r.content@ == content@,
    {
        UserMessage { content: content.to_owned() }
    }
}

/// What the model said.
#[derive(Debug, PartialEq)]
pub struct AssistantMessage {
    pub content: LanguageModelResponseContentType,
    pub usage: Option<Usage>,
}

pub struct AssistantMessageView {
    pub content: ContentView,
    pub usage: Option<Usage>,
}

impl View for AssistantMessage {
    type V = AssistantMessageView;

    open spec fn view(&self) -> AssistantMessageView {
        AssistantMessageView { content: self.content@, usage: self.usage }
    }
}

/// An answer to a request for permission to run a tool.
#[derive(Debug, Clone, PartialEq)]
pub struct ToolApproval {
    pub id: String,
    pub approved: bool,
}

/// One message of a conversation.
#[derive(Debug, PartialEq)]
pub enum Message {
    System(SystemMessage),
    User(UserMessage),
    Assistant(AssistantMessage),
    Tool(ToolResultInfo),
    Developer(String),
    ToolApproval(ToolApproval),
}

pub enum MessageView {
    System(Seq<char>),
    User(Seq<char>),
    Assistant(AssistantMessageView),
    Tool(ToolResultInfoView),
    Developer(Seq<char>),
    ToolApproval { id: Seq<char>, approved: bool },
}

impl View for Message {
    type V = MessageView;

    open spec fn view(&self) -> MessageView {
        match *self {
            Message::System(message) => MessageView::System(message.content@),
            Message::User(message) => MessageView::User(message.content@),
            Message::Assistant(message) => MessageView::Assistant(message@),
            Message::Tool(result) => MessageView::Tool(result@),
            Message::Developer(text) => MessageView::Developer(text@),
            Message::ToolApproval(approval) => MessageView::ToolApproval {
                id: approval.id@,
                approved: approval.approved,
            },
        }
    }
}

/// A message with the step of the conversation that it belongs to.
#[derive(Debug, PartialEq)]
pub struct TaggedMessage {
    pub step_id: usize,
    pub message: Message,
}

pub struct TaggedMessageView {
    pub step_id: usize,
    pub message: MessageView,
}

impl View for TaggedMessage {
    type V = TaggedMessageView;

    open spec fn view(&self) -> TaggedMessageView {
        TaggedMessageView { step_id: self.step_id, message: self.message@ }
    }
}

impl From<Message> for TaggedMessage {
    /// Places a message in the first step.
    fn from(message: Message) -> (r: Self) {
        TaggedMessage { step_id: 0, message }
    }
}

impl vstd::std_specs::convert::FromSpecImpl<Message> for TaggedMessage {
    open spec fn obeys_from_spec() -> bool {
        true
    }

    open spec fn from_spec(message: Message) -> TaggedMessage {
        TaggedMessage { step_id: 0, message }
    }
}

} // verus!
