//! Requests to a chat-completions provider, and what its whole responses mean.
use crate::json::{parse_tool_input, tool_input};
use crate::language_model::{
    ContentView, LanguageModelResponse, LanguageModelResponseContentType, LanguageModelResponseView,
};
use crate::providers::openai_chat_completions::prompt_caching::{
    apply_openrouter_anthropic_prompt_caching, with_prompt_caching,
};
use crate::providers::openai_chat_completions::types::{
    ChatCompletionsOptions, ChatCompletionsOptionsView, ChatCompletionsResponse,
    ChatCompletionsResponseView, ChatContentView, ChatMessage, ChatMessageContent,
    ChatMessageContentPart, ChatMessageView, PartView, StreamOptions, ToolCall, ToolCallView,
};
use crate::sequences::{opt_view, seq_view};
use crate::tools::{ToolCallInfo, ToolCallInfoView, ToolDetails, ToolDetailsView};
use std::collections::HashMap;
use vstd::prelude::*;

verus! {

/// Where a provider is reached.
#[derive(Debug, Clone, PartialEq)]
pub struct OpenAIChatCompletionsSettings {
    pub provider_name: String,
    pub base_url: String,
}

/// A model behind a chat-completions API, with the request that was last made of it.
#[derive(Debug, Clone, PartialEq)]
pub struct OpenAIChatCompletions {
    pub settings: OpenAIChatCompletionsSettings,
    pub options: ChatCompletionsOptions,
}

/// What is asked of a stream: token counts, and no padding against eavesdroppers.
pub open spec fn stream_settings() -> StreamOptions {
    StreamOptions { include_usage: Some(true), include_obfuscation: Some(false) }
}

/// The request for a whole answer.
pub open spec fn generate_request(
    provider_name: Seq<char>,
    model: Seq<char>,
    chat_options: ChatCompletionsOptionsView,
) -> ChatCompletionsOptionsView {
    with_prompt_caching(provider_name, ChatCompletionsOptionsView { model, ..chat_options })
}

/// The request for a streamed answer.
pub open spec fn stream_request(
    provider_name: Seq<char>,
    model: Seq<char>,
    chat_options: ChatCompletionsOptionsView,
) -> ChatCompletionsOptionsView {
    with_prompt_caching(
        provider_name,
        ChatCompletionsOptionsView {
            model,
            stream: Some(true),
            stream_options: Some(stream_settings()),
            ..chat_options
        },
    )
}

impl OpenAIChatCompletions {
    /// The name of the model.
    pub fn name(&self) -> (r: String)
        ensures
            r@ == self.options.model@,
    {
        self.options.model.clone()
    }

    /// Makes ready to ask for a whole answer: the request becomes `chat_options`, for this model,
    /// with a cache mark where the provider honours one.
    pub fn prepare_generate_text(&mut self, chat_options: ChatCompletionsOptions)
        ensures
            final(self).settings == old(self).settings,
            final(self).options@ == generate_request(
                old(self).settings.provider_name@,
                old(self).options.model@,
                chat_options@,
            ),
    {
        let mut chat_options = chat_options;
        chat_options.model = self.options.model.clone();
        apply_openrouter_anthropic_prompt_caching(
            self.settings.provider_name.as_str(),
            &mut chat_options,
        );
        self.options = chat_options;
    }

    /// Makes ready to ask for a streamed answer: as for a whole one, and with the stream's own
    /// settings.
    pub fn prepare_stream_text(&mut self, chat_options: ChatCompletionsOptions)
        ensures
            final(self).settings == old(self).settings,
            final(self).options@ == stream_request(
                old(self).settings.provider_name@,
                old(self).options.model@,
                chat_options@,
            ),
    {
        let mut chat_options = chat_options;
        chat_options.model = self.options.model.clone();
        chat_options.stream = Some(true);
        chat_options.stream_options = Some(
            StreamOptions { include_usage: Some(true), include_obfuscation: Some(false) },
        );
        apply_openrouter_anthropic_prompt_caching(
            self.settings.provider_name.as_str(),
            &mut chat_options,
        );
        self.options = chat_options;
    }
}

/// The headers to send beside the provider's own: none at all rather than an empty set.
pub fn additional_headers(headers: HashMap<String, String>) -> (r: Option<HashMap<String, String>>)
    ensures
        r == (if headers@.is_empty() {
            None
        } else {
            Some(headers)
        }),
{
    if headers.is_empty() {
        None
    } else {
        Some(headers)
    }
}

/// The texts of the parts, one after the other.
pub open spec fn joined_text(parts: Seq<PartView>) -> Seq<char>
    decreases parts.len(),
{
    if parts.len() == 0 {
        Seq::empty()
    } else {
        let earlier = joined_text(parts.drop_last());
        match parts.last() {
            PartView::Text { text, .. } => earlier + text,
            _ => earlier,
        }
    }
}

/// The text of a message's content: that of plain content as it is, that of parts joined, and
/// nothing where the parts have no text between them.
pub open spec fn content_text(content: Option<ChatContentView>) -> Option<Seq<char>> {
    match content {
        Some(ChatContentView::Text(text)) => Some(text),
        Some(ChatContentView::Parts(parts)) => if joined_text(parts).len() > 0 {
            Some(joined_text(parts))
        } else {
            None
        },
        None => None,
    }
}

/// The text of a message's content, if there is any.
pub fn extract_text_content(content: Option<ChatMessageContent>) -> (r: Option<String>)
    ensures
        opt_view(r) == content_text(opt_view(content)),
{
    match content {
        Some(ChatMessageContent::Text(text)) => Some(text),
        Some(ChatMessageContent::Parts(parts)) => {
            let ghost views = seq_view(parts@);
            let mut out = String::new();
            let mut i: usize = 0;
            assert(views.take(0) =~= Seq::empty());
            while i < parts.len()
                invariant
                    i <= parts@.len(),
                    views == seq_view(parts@),
                    out@ == joined_text(views.take(i as int)),
                decreases parts@.len() - i,
            {
                assert(views.take(i + 1).drop_last() =~= views.take(i as int));
                assert(views.take(i + 1).last() == views[i as int]);
                if let ChatMessageContentPart::Text(part) = &parts[i] {
                    out.append(part.text.as_str());
                }
                i += 1;
            }
            assert(views.take(i as int) =~= views);
            if out.as_str().is_empty() {
                None
            } else {
                Some(out)
            }
        },
        None => None,
    }
}

/// What a tool call asks for; arguments that are not JSON count as an empty object.
pub open spec fn converted_tool_call(call: ToolCallView) -> ToolCallInfoView {
    ToolCallInfoView {
        tool: ToolDetailsView { name: call.name, id: call.id },
        input: tool_input(call.arguments),
    }
}

/// What one of the answers holds: its text, if it has any, and then its tool calls.
pub open spec fn choice_contents(message: ChatMessageView) -> Seq<ContentView> {
    (match content_text(message.content) {
        Some(text) => if text.len() > 0 {
            seq![ContentView::Text(text)]
        } else {
            Seq::empty()
        },
        None => Seq::empty(),
    }) + (match message.tool_calls {
        Some(calls) => calls.map_values(
            |call: ToolCallView| ContentView::ToolCall(converted_tool_call(call)),
        ),
        None => Seq::empty(),
    })
}

/// What the answers hold, one after the other.
pub open spec fn response_contents(choices: Seq<ChatMessageView>) -> Seq<ContentView>
    decreases choices.len(),
{
    if choices.len() == 0 {
        Seq::empty()
    } else {
        response_contents(choices.drop_last()) + choice_contents(choices.last())
    }
}

/// What a whole response means.
pub open spec fn converted_response(
    response: ChatCompletionsResponseView,
) -> LanguageModelResponseView {
    LanguageModelResponseView {
        contents: response_contents(response.choices),
        usage: response.usage,
    }
}

/// What a tool call asks for.
pub fn convert_tool_call(call: ToolCall) -> (r: ToolCallInfo)
    ensures
        r@ == converted_tool_call(call@),
{
    let input = parse_tool_input(call.function.arguments.as_str());
    ToolCallInfo { tool: ToolDetails { name: call.function.name, id: call.id }, input }
}

/// Adds what one of the answers holds.
fn push_choice_contents(contents: &mut Vec<LanguageModelResponseContentType>, message: ChatMessage)
    ensures
        seq_view(final(contents)@) == seq_view(old(contents)@) + choice_contents(message@),
{
    let ChatMessage { role: _, content, name: _, tool_calls, tool_call_id: _ } = message;
    let ghost before = seq_view(contents@);
    if let Some(text) = extract_text_content(content) {
        if !text.as_str().is_empty() {
            contents.push(LanguageModelResponseContentType::Text(text));
        }
    }
    let ghost with_text = seq_view(contents@);
    if let Some(calls) = tool_calls {
        let ghost asked = seq_view(calls@).map_values(
            |call: ToolCallView| ContentView::ToolCall(converted_tool_call(call)),
        );
        assert(asked.take(0) =~= Seq::empty());
        for call in rest: calls
            invariant
                rest.seq() == calls@,
                asked == seq_view(calls@).map_values(
                    |call: ToolCallView| ContentView::ToolCall(converted_tool_call(call)),
                ),
                seq_view(contents@) =~= with_text + asked.take(rest.index()),
        {
            let ghost so_far = contents@;
            let ghost at = rest.index();
            let info = convert_tool_call(call);
            contents.push(LanguageModelResponseContentType::ToolCall(info));
            assert(seq_view(contents@) =~= seq_view(so_far).push(asked[at]));
        }
        assert(asked.take(asked.len() as int) =~= asked);
    }
    assert(seq_view(contents@) =~= before + choice_contents(message@));
}

/// What a whole response means: for each answer its text, if it has any, and then its tool calls.
pub fn convert_response(response: ChatCompletionsResponse) -> (r: LanguageModelResponse)
    ensures
        r@ == converted_response(response@),
{
    let ghost views = seq_view(response.choices@);
    let mut contents: Vec<LanguageModelResponseContentType> = Vec::new();
    assert(views.take(0) =~= Seq::empty());
    assert(seq_view(contents@) =~= Seq::empty());
    for choice in rest: response.choices
        invariant
            rest.seq() == response.choices@,
            views == seq_view(response.choices@),
            seq_view(contents@) == response_contents(views.take(rest.index())),
    {
        assert(views.take(rest.index() + 1).drop_last() =~= views.take(rest.index()));
        push_choice_contents(&mut contents, choice.message);
    }
    assert(views.take(views.len() as int) =~= views);
    LanguageModelResponse { contents, usage: response.usage }
}

} // verus!
