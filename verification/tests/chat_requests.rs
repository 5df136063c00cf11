use llm_providers::language_model::{
    LanguageModelResponse, LanguageModelResponseContentType, Usage,
};
use llm_providers::providers::openai_chat_completions::language_model::{
    additional_headers, convert_response, extract_text_content, OpenAIChatCompletions,
    OpenAIChatCompletionsSettings,
};
use llm_providers::providers::openai_chat_completions::prompt_caching::{
    apply_ephemeral_cache_control, apply_openrouter_anthropic_prompt_caching, has_cache_control,
    is_openrouter_anthropic_model,
};
use llm_providers::providers::openai_chat_completions::types::{
    CacheControl, ChatCompletionsOptions, ChatCompletionsResponse, ChatMessage,
    ChatMessageContent, ChatMessageContentPart, ChatMessageContentPartFile,
    ChatMessageContentPartImageUrl, ChatMessageContentPartInputAudio, ChatMessageContentPartText,
    Choice, FunctionCall, Role, StreamOptions, ToolCall,
};
use llm_providers::tools::{ToolCallInfo, ToolDetails};
use serde_json::Value;
use std::collections::HashMap;

fn message(role: Role, content: Option<ChatMessageContent>) -> ChatMessage {
    ChatMessage { role, content, name: None, tool_calls: None, tool_call_id: None }
}

fn ephemeral() -> Option<CacheControl> {
    Some(CacheControl { type_: "ephemeral".to_string(), ttl: None })
}

fn text_part(text: &str, cache_control: Option<CacheControl>) -> ChatMessageContentPart {
    ChatMessageContentPart::Text(ChatMessageContentPartText {
        text: text.to_string(),
        cache_control,
        extra: HashMap::new(),
    })
}

fn image_part(cache_control: Option<CacheControl>) -> ChatMessageContentPart {
    ChatMessageContentPart::ImageUrl(ChatMessageContentPartImageUrl {
        url: "https://example.org/cat.png".to_string(),
        cache_control,
    })
}

fn audio_part(cache_control: Option<CacheControl>) -> ChatMessageContentPart {
    ChatMessageContentPart::InputAudio(ChatMessageContentPartInputAudio {
        data: "AAAA".to_string(),
        format: "wav".to_string(),
        cache_control,
    })
}

fn file_part(cache_control: Option<CacheControl>) -> ChatMessageContentPart {
    ChatMessageContentPart::File(ChatMessageContentPartFile {
        file_id: "file-1".to_string(),
        cache_control,
    })
}

fn parts(parts: Vec<ChatMessageContentPart>) -> Option<ChatMessageContent> {
    Some(ChatMessageContent::Parts(parts))
}

fn text(text: &str) -> Option<ChatMessageContent> {
    Some(ChatMessageContent::text(text))
}

fn request(messages: Vec<ChatMessage>) -> ChatCompletionsOptions {
    ChatCompletionsOptions {
        model: "anthropic/opus".to_string(),
        messages,
        ..Default::default()
    }
}

#[test]
fn openrouter_is_recognised_in_any_case() {
    assert!(is_openrouter_anthropic_model("openrouter", "anthropic/opus"));
    assert!(is_openrouter_anthropic_model("OPENRouter", "anthropic/"));
    assert!(!is_openrouter_anthropic_model("open-router", "anthropic/opus"));
    assert!(!is_openrouter_anthropic_model("openrouter", "Anthropic/opus"));
    assert!(!is_openrouter_anthropic_model("openrouter", "meta/anthropic/opus"));
    assert!(!is_openrouter_anthropic_model("", ""));
}

#[test]
fn a_mark_on_any_part_is_seen() {
    assert!(!has_cache_control(&[]));
    assert!(!has_cache_control(&[text_part("a", None), image_part(None), audio_part(None), file_part(None)]));
    assert!(has_cache_control(&[text_part("a", None), text_part("b", ephemeral())]));
    assert!(has_cache_control(&[image_part(ephemeral())]));
    assert!(has_cache_control(&[audio_part(ephemeral())]));
    assert!(has_cache_control(&[text_part("a", None), file_part(ephemeral())]));
}

#[test]
fn plain_text_becomes_one_marked_part() {
    let mut prompt = message(Role::User, text("hello"));
    apply_ephemeral_cache_control(&mut prompt);
    assert_eq!(prompt, message(Role::User, parts(vec![text_part("hello", ephemeral())])));
}

#[test]
fn blank_and_missing_content_is_left_alone() {
    for content in [text(" \n"), text(""), None, parts(vec![]), parts(vec![text_part(" ", None), image_part(None)])] {
        let mut prompt = message(Role::User, content.clone());
        apply_ephemeral_cache_control(&mut prompt);
        assert_eq!(prompt, message(Role::User, content));
    }
}

#[test]
fn of_several_parts_the_first_text_is_marked() {
    let mut prompt = message(
        Role::User,
        parts(vec![image_part(None), text_part(" ", None), text_part("a", None), text_part("b", None)]),
    );
    apply_ephemeral_cache_control(&mut prompt);
    let marked = message(
        Role::User,
        parts(vec![image_part(None), text_part(" ", None), text_part("a", ephemeral()), text_part("b", None)]),
    );
    assert_eq!(prompt, marked);
    apply_ephemeral_cache_control(&mut prompt);
    assert_eq!(prompt, marked);
}

#[test]
fn parts_with_a_mark_get_no_other() {
    let content = parts(vec![text_part("a", None), file_part(ephemeral())]);
    let mut prompt = message(Role::User, content.clone());
    apply_ephemeral_cache_control(&mut prompt);
    assert_eq!(prompt, message(Role::User, content));
}

#[test]
fn the_first_system_message_is_marked_before_any_user_message() {
    let mut options = request(vec![
        message(Role::User, text("u")),
        message(Role::System, text("s")),
        message(Role::System, text("t")),
    ]);
    apply_openrouter_anthropic_prompt_caching("openrouter", &mut options);
    let marked = request(vec![
        message(Role::User, text("u")),
        message(Role::System, parts(vec![text_part("s", ephemeral())])),
        message(Role::System, text("t")),
    ]);
    assert_eq!(options, marked);
    apply_openrouter_anthropic_prompt_caching("openrouter", &mut options);
    assert_eq!(options, marked);
}

#[test]
fn without_a_system_message_the_first_user_message_is_marked() {
    let mut options = request(vec![
        message(Role::Assistant, text("a")),
        message(Role::User, text("u")),
        message(Role::User, text("v")),
    ]);
    apply_openrouter_anthropic_prompt_caching("openrouter", &mut options);
    assert_eq!(
        options,
        request(vec![
            message(Role::Assistant, text("a")),
            message(Role::User, parts(vec![text_part("u", ephemeral())])),
            message(Role::User, text("v")),
        ])
    );
    let mut options = request(vec![message(Role::Assistant, text("a"))]);
    apply_openrouter_anthropic_prompt_caching("openrouter", &mut options);
    assert_eq!(options, request(vec![message(Role::Assistant, text("a"))]));
}

#[test]
fn other_models_are_left_alone() {
    let mut options = request(vec![message(Role::System, text("s"))]);
    options.model = "openai/gpt".to_string();
    let before = options.clone();
    apply_openrouter_anthropic_prompt_caching("openrouter", &mut options);
    assert_eq!(options, before);
}

#[test]
fn marks_do_not_change_the_text_of_a_message() {
    for content in [text("a"), text(" "), parts(vec![text_part("a", None), image_part(None), text_part("b", None)])] {
        let mut prompt = message(Role::User, content.clone());
        apply_ephemeral_cache_control(&mut prompt);
        assert_eq!(extract_text_content(prompt.content), extract_text_content(content));
    }
}

#[test]
fn texts_of_parts_are_joined() {
    assert_eq!(extract_text_content(None), None);
    assert_eq!(extract_text_content(text("")), Some(String::new()));
    assert_eq!(extract_text_content(text("a")), Some("a".to_string()));
    assert_eq!(extract_text_content(parts(vec![])), None);
    assert_eq!(extract_text_content(parts(vec![text_part("", None), image_part(None)])), None);
    assert_eq!(
        extract_text_content(parts(vec![text_part("a ", None), image_part(None), text_part("b", None)])),
        Some("a b".to_string())
    );
}

fn call(id: &str, name: &str, arguments: &str) -> ToolCall {
    ToolCall {
        id: id.to_string(),
        function: FunctionCall { name: name.to_string(), arguments: arguments.to_string() },
    }
}

fn call_info(id: &str, name: &str, input: Value) -> LanguageModelResponseContentType {
    LanguageModelResponseContentType::ToolCall(ToolCallInfo {
        tool: ToolDetails { name: name.to_string(), id: id.to_string() },
        input,
    })
}

#[test]
fn responses_give_text_and_then_tool_calls() {
    let usage = Usage {
        input_tokens: Some(1),
        output_tokens: Some(2),
        cached_tokens: None,
        reasoning_tokens: None,
    };
    let mut first = message(Role::Assistant, text("one"));
    first.tool_calls = Some(vec![call("1", "f", "[true]"), call("2", "g", "oops")]);
    let mut second = message(Role::Assistant, text(""));
    second.tool_calls = Some(vec![]);
    let third = message(Role::Assistant, parts(vec![text_part("three", None)]));
    let response = ChatCompletionsResponse {
        choices: vec![
            Choice { message: first },
            Choice { message: second },
            Choice { message: third },
            Choice { message: message(Role::Assistant, None) },
        ],
        usage: Some(usage),
    };
    assert_eq!(
        convert_response(response),
        LanguageModelResponse {
            contents: vec![
                LanguageModelResponseContentType::Text("one".to_string()),
                call_info("1", "f", Value::Array(vec![Value::Bool(true)])),
                call_info("2", "g", Value::Object(serde_json::Map::new())),
                LanguageModelResponseContentType::Text("three".to_string()),
            ],
            usage: Some(usage),
        }
    );
}

fn model() -> OpenAIChatCompletions {
    OpenAIChatCompletions {
        settings: OpenAIChatCompletionsSettings {
            provider_name: "openrouter".to_string(),
            base_url: "https://example.org".to_string(),
        },
        options: request(vec![]),
    }
}

#[test]
fn requests_are_for_the_model_at_hand() {
    let mut model = model();
    let asked = ChatCompletionsOptions {
        model: "other".to_string(),
        messages: vec![message(Role::User, text("u"))],
        ..Default::default()
    };
    model.prepare_generate_text(asked.clone());
    assert_eq!(model.name(), "anthropic/opus");
    assert_eq!(
        model.options,
        request(vec![message(Role::User, parts(vec![text_part("u", ephemeral())]))])
    );
    model.prepare_stream_text(asked);
    assert_eq!(model.name(), "anthropic/opus");
    let mut streamed = request(vec![message(Role::User, parts(vec![text_part("u", ephemeral())]))]);
    streamed.stream = Some(true);
    streamed.stream_options =
        Some(StreamOptions { include_usage: Some(true), include_obfuscation: Some(false) });
    assert_eq!(model.options, streamed);
}

#[test]
fn no_headers_rather_than_empty_headers() {
    assert_eq!(additional_headers(HashMap::new()), None);
    let headers = HashMap::from([("a".to_string(), "b".to_string())]);
    assert_eq!(additional_headers(headers.clone()), Some(headers));
}
