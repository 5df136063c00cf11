use llm_providers::providers::openai_chat_completions::prompt_caching::apply_openrouter_anthropic_prompt_caching;
use llm_providers::providers::openai_chat_completions::types::{
    ChatCompletionsOptions, ChatMessage, ChatMessageContent, ChatMessageContentPart, Role,
};

#[test]
fn openrouter_anthropic_adds_cache_control_to_system_prompt() {
    let mut options = ChatCompletionsOptions {
        model: "anthropic/sonnet-4.5".to_string(),
        messages: vec![ChatMessage {
            role: Role::System,
            content: Some(ChatMessageContent::text("System prompt")),
            name: None,
            tool_calls: None,
            tool_call_id: None,
        }],
        ..Default::default()
    };

    apply_openrouter_anthropic_prompt_caching("OpenRouter", &mut options);

    let content = options
        .messages
        .first()
        .and_then(|m| m.content.clone())
        .expect("message content");
    let ChatMessageContent::Parts(parts) = content else {
        panic!("expected content parts");
    };
    let Some(ChatMessageContentPart::Text(text_part)) = parts.first() else {
        panic!("expected text part");
    };
    assert_eq!(
        text_part.cache_control.as_ref().map(|c| c.type_.as_str()),
        Some("ephemeral")
    );
}

#[test]
fn non_openrouter_provider_does_not_modify_messages() {
    let original = ChatMessage {
        role: Role::System,
        content: Some(ChatMessageContent::text("System prompt")),
        name: None,
        tool_calls: None,
        tool_call_id: None,
    };
    let mut options = ChatCompletionsOptions {
        model: "anthropic/sonnet-4.5".to_string(),
        messages: vec![original.clone()],
        ..Default::default()
    };

    apply_openrouter_anthropic_prompt_caching("openai-chat", &mut options);

    assert_eq!(options.messages[0], original);
}
