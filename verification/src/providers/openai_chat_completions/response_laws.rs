//! What a whole response means, said of the response itself.
use crate::json::{json_object, json_parsed};
use crate::language_model::ContentView;
use crate::providers::openai_chat_completions::language_model::{
    choice_contents, content_text, converted_response, converted_tool_call, joined_text,
    response_contents,
};
use crate::providers::openai_chat_completions::laws::responses_are_converted_piecewise;
use crate::providers::openai_chat_completions::types::{
    ChatCompletionsResponseView, ChatContentView, ChatMessageView, PartView, ToolCallView,
};
use crate::tools::ToolCallInfoView;
use vstd::prelude::*;

verus! {

/// `info` asks for what `call` asks for: the same tool under the same id, with the value that the
/// arguments spell, or the empty object where they spell none.
pub open spec fn asks_the_same(info: ToolCallInfoView, call: ToolCallView) -> bool {
    &&& info.tool.name == call.name
    &&& info.tool.id == call.id
    &&& json_parsed(call.arguments) matches Some(value) ==> info.input == value
    &&& json_parsed(call.arguments) is None ==> info.input == json_object(Map::empty())
}

/// A tool call is converted into one that asks the same.
pub proof fn a_converted_call_asks_the_same(call: ToolCallView)
    ensures
        asks_the_same(converted_tool_call(call), call),
{
}

/// Parts are joined in order: a part of text adds its text to what the parts before it give, and a
/// part of another kind adds nothing.
pub proof fn parts_are_joined_in_order(
    before: Seq<PartView>,
    part: PartView,
    after: Seq<PartView>,
)
    ensures
        joined_text(Seq::empty()) == Seq::<char>::empty(),
        part matches PartView::Text { text, .. } ==> joined_text(before.push(part) + after)
            == joined_text(before) + text + joined_text(after),
        !(part is Text) ==> joined_text(before.push(part) + after) == joined_text(before)
            + joined_text(after),
    decreases after.len(),
{
    if after.len() == 0 {
        assert(before.push(part) + after =~= before.push(part));
        assert(before.push(part).drop_last() =~= before);
        assert(joined_text(before) + joined_text(after) =~= joined_text(before));
        if let PartView::Text { text, .. } = part {
            assert(joined_text(before) + text + joined_text(after) =~= joined_text(before) + text);
        }
    } else {
        let all = before.push(part) + after;
        parts_are_joined_in_order(before, part, after.drop_last());
        assert(all.drop_last() =~= before.push(part) + after.drop_last());
        assert(all.last() == after.last());
        if let PartView::Text { text, .. } = part {
            assert(joined_text(all) =~= joined_text(before) + text + joined_text(after));
        } else {
            assert(joined_text(all) =~= joined_text(before) + joined_text(after));
        }
    }
}

/// The text of a message: plain text is given as it is, even where it is empty; parts give their
/// joined text, and nothing where that is empty; no content gives nothing.
pub proof fn the_text_of_a_message_is_all_its_text(content: Option<ChatContentView>)
    ensures
        match content {
            Some(ChatContentView::Text(text)) => content_text(content) == Some(text),
            Some(ChatContentView::Parts(parts)) => {
                &&& content_text(content) is None <==> joined_text(parts).len() == 0
                &&& content_text(content) matches Some(text) ==> text == joined_text(parts)
            },
            None => content_text(content) is None,
        },
{
}

/// Every tool call of a message is given, with or without text: as many as the message has, in the
/// same order, each asking the same; before them stands the text of the message, where it has any
/// that is not empty, and nothing else is given.
pub proof fn every_tool_call_of_a_message_is_given(message: ChatMessageView)
    ensures
        ({
            let given = choice_contents(message);
            let texts: int = if content_text(message.content) matches Some(text) && text.len() > 0 {
                1
            } else {
                0
            };
            let calls = if message.tool_calls is Some {
                message.tool_calls->0
            } else {
                Seq::<ToolCallView>::empty()
            };
            &&& given.len() == texts + calls.len()
            &&& texts == 1 ==> (given[0] matches ContentView::Text(text) && Some(text)
                == content_text(message.content))
            &&& forall|i: int|
                0 <= i < calls.len() ==> (#[trigger] given[texts + i] matches ContentView::ToolCall(
                    info,
                ) && asks_the_same(info, calls[i]))
        }),
{
}

/// Each answer of a response has its place between what the answers before it and those after it
/// hold; a response without answers holds nothing.
pub proof fn an_answer_keeps_its_place(
    before: Seq<ChatMessageView>,
    message: ChatMessageView,
    after: Seq<ChatMessageView>,
)
    ensures
        response_contents(before.push(message) + after) == response_contents(before)
            + choice_contents(message) + response_contents(after),
        response_contents(Seq::empty()) == Seq::<ContentView>::empty(),
{
    responses_are_converted_piecewise(before.push(message), after);
    assert(before.push(message).drop_last() =~= before);
}

/// A response gives what its answers hold and the token counts that came with it.
pub proof fn a_response_keeps_its_answers_and_counts(response: ChatCompletionsResponseView)
    ensures
        converted_response(response).contents == response_contents(response.choices),
        converted_response(response).usage == response.usage,
{
}

} // verus!
