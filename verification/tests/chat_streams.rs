use llm_providers::error::Error;
use llm_providers::language_model::{
    LanguageModelResponseContentType, LanguageModelStreamChunk, LanguageModelStreamChunkType, Usage,
};
use llm_providers::messages::AssistantMessage;
use llm_providers::providers::openai_chat_completions::stream::{
    finish, finished_tool_calls, tool_call_order, AccumulatedToolCall, StreamState,
};
use llm_providers::providers::openai_chat_completions::types::{
    ChatCompletionsStreamChunk, ChatCompletionsStreamEvent, Delta, FunctionDelta, StreamChoice,
    ToolCallDelta,
};
use llm_providers::tools::{ToolCallInfo, ToolDetails};
use serde_json::Value;

fn choice(content: Option<&str>, tool_calls: Option<Vec<ToolCallDelta>>, reason: Option<&str>) -> StreamChoice {
    StreamChoice {
        delta: Delta { content: content.map(str::to_string), tool_calls },
        finish_reason: reason.map(str::to_string),
    }
}

fn delta(index: u32, id: Option<&str>, name: Option<&str>, arguments: Option<&str>) -> ToolCallDelta {
    ToolCallDelta {
        index,
        id: id.map(str::to_string),
        function: Some(FunctionDelta {
            name: name.map(str::to_string),
            arguments: arguments.map(str::to_string),
        }),
    }
}

fn feed(state: &mut StreamState, choices: Vec<StreamChoice>, usage: Option<Usage>) -> Vec<LanguageModelStreamChunk> {
    state
        .on_event(Ok(ChatCompletionsStreamEvent::Chunk(ChatCompletionsStreamChunk { choices, usage })))
        .expect("chunks")
}

fn text(text: &str) -> LanguageModelStreamChunk {
    LanguageModelStreamChunk::Delta(LanguageModelStreamChunkType::Text(text.to_string()))
}

fn arguments(text: &str) -> LanguageModelStreamChunk {
    LanguageModelStreamChunk::Delta(LanguageModelStreamChunkType::ToolCall(text.to_string()))
}

fn failed(text: &str) -> LanguageModelStreamChunk {
    LanguageModelStreamChunk::Delta(LanguageModelStreamChunkType::Failed(text.to_string()))
}

fn end(usage: Option<Usage>) -> LanguageModelStreamChunk {
    LanguageModelStreamChunk::Done(AssistantMessage {
        content: LanguageModelResponseContentType::Text(String::new()),
        usage,
    })
}

fn call_end(id: &str, name: &str, input: Value, usage: Option<Usage>) -> LanguageModelStreamChunk {
    LanguageModelStreamChunk::Done(AssistantMessage {
        content: LanguageModelResponseContentType::ToolCall(ToolCallInfo {
            tool: ToolDetails { name: name.to_string(), id: id.to_string() },
            input,
        }),
        usage,
    })
}

fn some_usage() -> Option<Usage> {
    Some(Usage {
        input_tokens: Some(5),
        output_tokens: Some(6),
        cached_tokens: Some(0),
        reasoning_tokens: None,
    })
}

#[test]
fn text_is_passed_on_unless_it_is_empty() {
    let mut state = StreamState::new();
    let chunks = feed(
        &mut state,
        vec![choice(Some("a"), None, None), choice(Some(""), None, None), choice(None, None, None), choice(Some(" b"), None, None)],
        some_usage(),
    );
    assert_eq!(chunks, vec![text("a"), text(" b")]);
}

#[test]
fn answers_end_for_known_and_unknown_reasons() {
    for reason in ["stop", "length", "whatever", ""] {
        let mut state = StreamState::new();
        let chunks = feed(&mut state, vec![choice(Some("a"), None, Some(reason))], some_usage());
        assert_eq!(chunks, vec![text("a"), end(some_usage())]);
    }
    let mut state = StreamState::new();
    assert_eq!(
        feed(&mut state, vec![choice(None, None, Some("content_filter"))], None),
        vec![end(None), failed("Content filtered")]
    );
}

#[test]
fn fragments_of_a_tool_call_are_put_together() {
    for reason in ["tool_calls", "function_call"] {
        let mut state = StreamState::new();
        assert_eq!(
            feed(&mut state, vec![choice(None, Some(vec![delta(0, Some("id"), Some("f"), Some(""))]), None)], None),
            vec![arguments("")]
        );
        assert_eq!(
            feed(&mut state, vec![choice(None, Some(vec![delta(0, None, None, Some("{\"a\""))]), None)], None),
            vec![arguments("{\"a\"")]
        );
        assert_eq!(
            feed(&mut state, vec![choice(None, Some(vec![delta(0, None, None, Some(":1}"))]), Some(reason))], some_usage()),
            {
                let mut input = serde_json::Map::new();
                input.insert("a".to_string(), Value::from(1));
                vec![arguments(":1}"), call_end("id", "f", Value::Object(input), some_usage())]
            }
        );
    }
}

#[test]
fn every_tool_call_is_given_once_in_some_order() {
    let mut state = StreamState::new();
    let deltas = vec![
        delta(1, Some("one"), Some("f"), Some("1")),
        delta(0, Some("zero"), Some("g"), Some("0")),
        delta(7, Some("seven"), None, Some("not json")),
    ];
    let chunks = feed(&mut state, vec![choice(None, Some(deltas), Some("tool_calls"))], None);
    assert_eq!(chunks[..3], [arguments("1"), arguments("0"), arguments("not json")]);
    assert_eq!(chunks.len(), 6);
    for expected in [
        call_end("one", "f", Value::from(1), None),
        call_end("zero", "g", Value::from(0), None),
        call_end("seven", "", Value::Object(serde_json::Map::new()), None),
    ] {
        assert_eq!(chunks[3..].iter().filter(|chunk| **chunk == expected).count(), 1);
    }
}

#[test]
fn later_ids_and_names_replace_earlier_ones() {
    let mut state = StreamState::new();
    let mut results = vec![];
    state.add_tool_call_delta(delta(3, Some("a"), Some("f"), None), &mut results);
    state.add_tool_call_delta(delta(3, Some("b"), None, Some("[")), &mut results);
    state.add_tool_call_delta(
        ToolCallDelta { index: 3, id: None, function: None },
        &mut results,
    );
    state.add_tool_call_delta(delta(3, None, Some("g"), Some("]")), &mut results);
    assert_eq!(results, vec![arguments("["), arguments("]")]);
    assert_eq!(
        state.tool_calls.get(&3),
        Some(&AccumulatedToolCall {
            id: "b".to_string(),
            name: "g".to_string(),
            arguments: "[]".to_string(),
        })
    );
}

#[test]
fn tool_calls_end_in_the_order_of_the_walk() {
    let mut state = StreamState::new();
    let mut results = vec![];
    state.add_tool_call_delta(delta(1, Some("one"), Some("f"), Some("1")), &mut results);
    state.add_tool_call_delta(delta(2, Some("two"), Some("g"), Some("2")), &mut results);
    let one = call_end("one", "f", Value::from(1), None);
    let two = call_end("two", "g", Value::from(2), None);
    assert_eq!(finished_tool_calls(&state.tool_calls, &vec![2, 1], None), vec![two, one]);
    assert_eq!(
        finish(&state.tool_calls, "tool_calls", None, &vec![1]),
        vec![call_end("one", "f", Value::from(1), None)]
    );
    assert_eq!(finish(&state.tool_calls, "stop", None, &vec![1, 2]), vec![end(None)]);
    let mut order = tool_call_order(&state.tool_calls);
    order.sort();
    assert_eq!(order, vec![1, 2]);
}

#[test]
fn tool_calls_stay_after_an_end() {
    let mut state = StreamState::new();
    let deltas = vec![delta(0, Some("id"), Some("f"), Some("0"))];
    feed(&mut state, vec![choice(None, Some(deltas), Some("stop"))], None);
    assert_eq!(
        feed(&mut state, vec![choice(None, None, Some("tool_calls"))], None),
        vec![call_end("id", "f", Value::from(0), None)]
    );
}

#[test]
fn chunk_boundaries_make_no_difference() {
    let pieces = || {
        vec![
            choice(Some("a"), Some(vec![delta(0, Some("id"), Some("f"), Some("["))]), None),
            choice(Some("b"), Some(vec![delta(0, None, None, Some("]"))]), Some("tool_calls")),
        ]
    };
    let mut whole = StreamState::new();
    let at_once = feed(&mut whole, pieces(), None);
    let mut cut = StreamState::new();
    let mut one_by_one = vec![];
    for piece in pieces() {
        one_by_one.extend(feed(&mut cut, vec![piece], None));
    }
    assert_eq!(at_once, one_by_one);
    assert_eq!(whole, cut);
    assert_eq!(
        at_once,
        vec![text("a"), arguments("["), text("b"), arguments("]"), call_end("id", "f", Value::Array(vec![]), None)]
    );
}

#[test]
fn events_without_a_chunk_change_nothing() {
    let mut state = StreamState::new();
    feed(&mut state, vec![choice(None, Some(vec![delta(0, Some("id"), None, None)]), None)], None);
    let before = state.clone();
    assert_eq!(state.on_event(Ok(ChatCompletionsStreamEvent::Open)), Ok(vec![]));
    assert_eq!(state.on_event(Ok(ChatCompletionsStreamEvent::Done)), Ok(vec![]));
    assert_eq!(
        state.on_event(Ok(ChatCompletionsStreamEvent::Error("overloaded".to_string()))),
        Ok(vec![failed("overloaded")])
    );
    let error = Error { message: "connection reset".to_string() };
    assert_eq!(state.on_event(Err(error.clone())), Err(error));
    assert_eq!(state, before);
}
