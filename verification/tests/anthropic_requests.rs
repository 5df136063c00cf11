use llm_providers::error::Error;
use llm_providers::extensions::Extensions;
use llm_providers::language_model::{
    LanguageModelOptions, LanguageModelResponseContentType, ReasoningEffort, Usage,
};
use llm_providers::messages::{
    AssistantMessage, Message, SystemMessage, TaggedMessage, ToolApproval, UserMessage,
};
use llm_providers::providers::anthropic::client::{
    AnthropicAssistantMessageParamContent, AnthropicCacheControl, AnthropicMessageDeltaUsage,
    AnthropicMessageParam, AnthropicOptions, AnthropicSystemMessageContentBlock,
    AnthropicSystemPrompt, AnthropicThinking, AnthropicTool, AnthropicUsage,
    AnthropicUserMessageContent, AnthropicUserMessageContentBlock,
};
use llm_providers::providers::anthropic::conversions::{
    apply_prompt_cache_to_first_user_message, build_request, convert_message,
    system_prompt_with_optional_cache, thinking_for,
};
use llm_providers::providers::anthropic::extensions::AnthropicThinkingMetadata;
use llm_providers::tools::{Tool, ToolCallInfo, ToolDetails, ToolList, ToolResultInfo};
use serde_json::Value;
use std::collections::HashMap;

fn mark(ttl: Option<&str>) -> AnthropicCacheControl {
    AnthropicCacheControl { type_: "ephemeral".to_string(), ttl: ttl.map(str::to_string) }
}

fn system(text: &str) -> TaggedMessage {
    Message::System(SystemMessage { content: text.to_string() }).into()
}

fn user(text: &str) -> TaggedMessage {
    Message::User(UserMessage::new(text)).into()
}

fn assistant(content: LanguageModelResponseContentType) -> Message {
    Message::Assistant(AssistantMessage { content, usage: None })
}

fn tool_call() -> ToolCallInfo {
    ToolCallInfo {
        tool: ToolDetails { name: "weather".to_string(), id: "call-1".to_string() },
        input: Value::from("Oslo"),
    }
}

fn user_text(text: &str) -> AnthropicMessageParam {
    AnthropicMessageParam::User { content: AnthropicUserMessageContent::Text(text.to_string()) }
}

fn text_block(text: &str, cache_control: Option<AnthropicCacheControl>) -> AnthropicUserMessageContentBlock {
    AnthropicUserMessageContentBlock::Text { text: text.to_string(), cache_control }
}

fn user_blocks(blocks: Vec<AnthropicUserMessageContentBlock>) -> AnthropicMessageParam {
    AnthropicMessageParam::User { content: AnthropicUserMessageContent::Blocks(blocks) }
}

fn result_block(content: &str) -> AnthropicUserMessageContentBlock {
    AnthropicUserMessageContentBlock::ToolResult {
        tool_use_id: "call-1".to_string(),
        content: content.to_string(),
    }
}

fn assistant_block(block: AnthropicAssistantMessageParamContent) -> AnthropicMessageParam {
    AnthropicMessageParam::Assistant { content: vec![block] }
}

#[test]
fn an_empty_request_is_empty() {
    let request = AnthropicOptions::from(LanguageModelOptions::default());
    assert_eq!(
        request,
        AnthropicOptions {
            model: String::new(),
            system: None,
            messages: vec![],
            tools: None,
            thinking: None,
        }
    );
}

#[test]
fn system_prompts_are_plain_without_a_mark() {
    assert_eq!(
        system_prompt_with_optional_cache("Be brief".to_string(), None),
        AnthropicSystemPrompt::Text("Be brief".to_string())
    );
    let cache_control = mark(Some("1h"));
    assert_eq!(
        system_prompt_with_optional_cache("Be brief".to_string(), Some(&cache_control)),
        AnthropicSystemPrompt::Blocks(vec![AnthropicSystemMessageContentBlock::Text {
            text: "Be brief".to_string(),
            cache_control: Some(mark(Some("1h"))),
        }])
    );
}

#[test]
fn the_last_system_message_that_is_not_empty_wins() {
    let request = build_request(
        LanguageModelOptions {
            system: Some("given".to_string()),
            messages: vec![system("first"), user("hello"), system("second"), system("")],
            ..Default::default()
        },
        None,
    );
    assert_eq!(request.system, Some(AnthropicSystemPrompt::Text("second".to_string())));
    assert_eq!(request.messages, vec![user_text("hello")]);

    let request = build_request(
        LanguageModelOptions {
            system: Some(String::new()),
            messages: vec![system("")],
            ..Default::default()
        },
        None,
    );
    assert_eq!(request.system, None);
}

#[test]
fn each_kind_of_message_has_its_place() {
    assert_eq!(convert_message(Message::System(SystemMessage { content: "s".to_string() })), None);
    assert_eq!(convert_message(Message::User(UserMessage::new("u"))), Some(user_text("u")));
    assert_eq!(
        convert_message(Message::Developer("mind the gap".to_string())),
        Some(user_text("<developer>\nmind the gap\n</developer>"))
    );
    assert_eq!(
        convert_message(Message::ToolApproval(ToolApproval {
            id: "call-1".to_string(),
            approved: true,
        })),
        None
    );
    assert_eq!(
        convert_message(assistant(LanguageModelResponseContentType::Text("a".to_string()))),
        Some(assistant_block(AnthropicAssistantMessageParamContent::Text { text: "a".to_string() }))
    );
    assert_eq!(
        convert_message(assistant(LanguageModelResponseContentType::ToolCall(tool_call()))),
        Some(assistant_block(AnthropicAssistantMessageParamContent::ToolUse {
            id: "call-1".to_string(),
            input: Value::from("Oslo"),
            name: "weather".to_string(),
        }))
    );
    assert_eq!(
        convert_message(assistant(LanguageModelResponseContentType::NotSupported("x".to_string()))),
        None
    );
    assert_eq!(
        convert_message(assistant(LanguageModelResponseContentType::ToolApprovalRequest(tool_call()))),
        None
    );
}

#[test]
fn thinking_is_signed_by_itself_where_there_is_no_signature() {
    assert_eq!(
        convert_message(assistant(LanguageModelResponseContentType::Reasoning {
            content: "hm".to_string(),
            extensions: Extensions::default(),
        })),
        Some(assistant_block(AnthropicAssistantMessageParamContent::Thinking {
            thinking: "hm".to_string(),
            signature: "hm".to_string(),
        }))
    );
    assert_eq!(
        convert_message(assistant(LanguageModelResponseContentType::Reasoning {
            content: "hm".to_string(),
            extensions: Extensions {
                anthropic_thinking: AnthropicThinkingMetadata {
                    signature: Some("sig".to_string()),
                },
            },
        })),
        Some(assistant_block(AnthropicAssistantMessageParamContent::Thinking {
            thinking: "hm".to_string(),
            signature: "sig".to_string(),
        }))
    );
}

#[test]
fn tool_results_are_json_and_failures_are_null() {
    let details = ToolDetails { name: "weather".to_string(), id: "call-1".to_string() };
    let mut output = serde_json::Map::new();
    output.insert("sky".to_string(), Value::from("clear"));
    assert_eq!(
        convert_message(Message::Tool(ToolResultInfo {
            tool: details.clone(),
            output: Ok(Value::Object(output)),
        })),
        Some(user_blocks(vec![result_block("{\"sky\":\"clear\"}")]))
    );
    assert_eq!(
        convert_message(Message::Tool(ToolResultInfo {
            tool: details,
            output: Err(Error { message: "no network".to_string() }),
        })),
        Some(user_blocks(vec![result_block("null")]))
    );
}

#[test]
fn tools_lose_the_schema_marker() {
    let mut schema = serde_json::Map::new();
    schema.insert("$schema".to_string(), Value::from("draft"));
    schema.insert("type".to_string(), Value::from("object"));
    let mut cleaned = serde_json::Map::new();
    cleaned.insert("type".to_string(), Value::from("object"));
    let tool = |name: &str, input_schema: Value| Tool {
        name: name.to_string(),
        description: "d".to_string(),
        input_schema,
    };
    let request = AnthropicOptions::from(LanguageModelOptions {
        tools: Some(ToolList {
            tools: vec![tool("a", Value::Object(schema)), tool("b", Value::Bool(true))],
        }),
        ..Default::default()
    });
    let expected = |name: &str, input_schema: Value| AnthropicTool {
        name: name.to_string(),
        description: "d".to_string(),
        input_schema,
    };
    assert_eq!(
        request.tools,
        Some(vec![expected("a", Value::Object(cleaned)), expected("b", Value::Bool(true))])
    );
}

#[test]
fn thinking_budgets_are_shares_of_the_limit() {
    assert_eq!(
        thinking_for(ReasoningEffort::Low, 1001),
        AnthropicThinking::Enable { budget_tokens: 250 }
    );
    assert_eq!(
        thinking_for(ReasoningEffort::Medium, 1001),
        AnthropicThinking::Enable { budget_tokens: 500 }
    );
    assert_eq!(
        thinking_for(ReasoningEffort::High, 1001),
        AnthropicThinking::Enable { budget_tokens: 751 }
    );
    let request = AnthropicOptions::from(LanguageModelOptions {
        reasoning_effort: Some(ReasoningEffort::High),
        ..Default::default()
    });
    assert_eq!(request.thinking, Some(AnthropicThinking::Enable { budget_tokens: 7500 }));
    let request = AnthropicOptions::from(LanguageModelOptions {
        reasoning_effort: Some(ReasoningEffort::Low),
        max_output_tokens: Some(400),
        ..Default::default()
    });
    assert_eq!(request.thinking, Some(AnthropicThinking::Enable { budget_tokens: 100 }));
}

#[test]
fn the_system_prompt_takes_the_mark_from_the_user() {
    let request = build_request(
        LanguageModelOptions {
            messages: vec![user("hello"), system("Be brief")],
            ..Default::default()
        },
        Some(mark(None)),
    );
    assert_eq!(
        request.system,
        Some(AnthropicSystemPrompt::Blocks(vec![AnthropicSystemMessageContentBlock::Text {
            text: "Be brief".to_string(),
            cache_control: Some(mark(None)),
        }]))
    );
    assert_eq!(request.messages, vec![user_text("hello")]);
}

#[test]
fn headers_mark_the_first_user_message_with_text() {
    let request = AnthropicOptions::from(LanguageModelOptions {
        messages: vec![
            assistant(LanguageModelResponseContentType::Text("hi".to_string())).into(),
            user(" \n"),
            user("first"),
            user("second"),
        ],
        headers: Some(HashMap::from([
            ("Prompt-Cache-Key".to_string(), "abc".to_string()),
            ("prompt_cache_ttl".to_string(), "1h".to_string()),
        ])),
        ..Default::default()
    });
    assert_eq!(
        request.messages,
        vec![
            assistant_block(AnthropicAssistantMessageParamContent::Text { text: "hi".to_string() }),
            user_text(" \n"),
            user_blocks(vec![text_block("first", Some(mark(Some("1h"))))]),
            user_text("second"),
        ]
    );
}

#[test]
fn without_a_cache_key_nothing_is_marked() {
    let request = AnthropicOptions::from(LanguageModelOptions {
        system: Some("Be brief".to_string()),
        messages: vec![user("hello")],
        headers: Some(HashMap::from([("x-prompt-cache-ttl".to_string(), "1h".to_string())])),
        ..Default::default()
    });
    assert_eq!(request.system, Some(AnthropicSystemPrompt::Text("Be brief".to_string())));
    assert_eq!(request.messages, vec![user_text("hello")]);
}

#[test]
fn of_several_blocks_the_first_text_is_marked() {
    let mut messages = vec![
        user_blocks(vec![result_block("null"), text_block(" ", None)]),
        user_blocks(vec![
            result_block("null"),
            text_block("", None),
            text_block("one", None),
            text_block("two", None),
        ]),
        user_text("three"),
    ];
    apply_prompt_cache_to_first_user_message(&mut messages, &mark(None));
    assert_eq!(
        messages,
        vec![
            user_blocks(vec![result_block("null"), text_block(" ", None)]),
            user_blocks(vec![
                result_block("null"),
                text_block("", None),
                text_block("one", Some(mark(None))),
                text_block("two", None),
            ]),
            user_text("three"),
        ]
    );
}

#[test]
fn a_mark_that_is_there_stays() {
    let mut messages = vec![user_blocks(vec![
        text_block("one", Some(mark(Some("5m")))),
        text_block("two", None),
    ])];
    apply_prompt_cache_to_first_user_message(&mut messages, &mark(None));
    assert_eq!(
        messages,
        vec![user_blocks(vec![
            text_block("one", Some(mark(Some("5m")))),
            text_block("two", None),
        ])]
    );
}

#[test]
fn marking_user_messages_twice_changes_nothing() {
    let mut messages = vec![user_text("one"), user_text("two")];
    apply_prompt_cache_to_first_user_message(&mut messages, &mark(None));
    apply_prompt_cache_to_first_user_message(&mut messages, &mark(Some("1h")));
    assert_eq!(
        messages,
        vec![user_blocks(vec![text_block("one", Some(mark(None)))]), user_text("two")]
    );
}

#[test]
fn cached_tokens_are_those_written_and_those_read() {
    assert_eq!(
        Usage::from_anthropic_usage(AnthropicUsage {
            input_tokens: 10,
            output_tokens: 20,
            cache_creation_input_tokens: 3,
            cache_read_input_tokens: 4,
        }),
        Usage {
            input_tokens: Some(10),
            output_tokens: Some(20),
            cached_tokens: Some(7),
            reasoning_tokens: None,
        }
    );
    assert_eq!(
        Usage::from_anthropic_message_delta_usage(AnthropicMessageDeltaUsage {
            input_tokens: None,
            output_tokens: 20,
            cache_creation_input_tokens: None,
            cache_read_input_tokens: Some(4),
        }),
        Usage {
            input_tokens: Some(0),
            output_tokens: Some(20),
            cached_tokens: Some(4),
            reasoning_tokens: None,
        }
    );
}

#[test]
fn headers_change_nothing_but_marks() {
    let request = |headers: Option<HashMap<String, String>>| {
        AnthropicOptions::from(LanguageModelOptions {
            messages: vec![
                Message::Tool(ToolResultInfo {
                    tool: ToolDetails { name: "weather".to_string(), id: "call-1".to_string() },
                    output: Ok(Value::from("rain")),
                })
                .into(),
                user("hello"),
            ],
            reasoning_effort: Some(ReasoningEffort::Low),
            headers,
            ..Default::default()
        })
    };
    let plain = request(None);
    let mut marked =
        request(Some(HashMap::from([("session_id".to_string(), "abc".to_string())])));
    assert_eq!(plain.messages, vec![user_blocks(vec![result_block("\"rain\"")]), user_text("hello")]);
    assert_eq!(
        marked.messages,
        vec![
            user_blocks(vec![result_block("\"rain\"")]),
            user_blocks(vec![text_block("hello", Some(mark(None)))]),
        ]
    );
    marked.messages[1] = user_text("hello");
    assert_eq!(marked, plain);
}

#[test]
fn missing_token_counts_are_zeros() {
    let whole = Usage::from_anthropic_usage(AnthropicUsage {
        input_tokens: 0,
        output_tokens: 3,
        cache_creation_input_tokens: 0,
        cache_read_input_tokens: 4,
    });
    let delta = Usage::from_anthropic_message_delta_usage(AnthropicMessageDeltaUsage {
        input_tokens: None,
        output_tokens: 3,
        cache_creation_input_tokens: None,
        cache_read_input_tokens: Some(4),
    });
    assert_eq!(delta, whole);
    assert_eq!(
        delta,
        Usage {
            input_tokens: Some(0),
            output_tokens: Some(3),
            cached_tokens: Some(4),
            reasoning_tokens: None,
        }
    );
}
