use llm_providers::language_model::LanguageModelOptions;
use llm_providers::messages::{Message, UserMessage};
use llm_providers::providers::anthropic::client::{
    AnthropicMessageParam, AnthropicOptions, AnthropicSystemMessageContentBlock,
    AnthropicSystemPrompt, AnthropicUserMessageContent, AnthropicUserMessageContentBlock,
};
use std::collections::HashMap;

#[test]
fn prompt_cache_key_adds_cache_control_to_system_prompt() {
    let options = LanguageModelOptions {
        system: Some("System instructions".to_string()),
        headers: Some(HashMap::from([(
            "x-prompt-cache-key".to_string(),
            "session-abc".to_string(),
        )])),
        ..Default::default()
    };

    let request: AnthropicOptions = options.into();
    let Some(AnthropicSystemPrompt::Blocks(blocks)) = request.system else {
        panic!("expected system blocks");
    };
    let Some(AnthropicSystemMessageContentBlock::Text { cache_control, .. }) = blocks.first()
    else {
        panic!("expected text system block");
    };
    assert_eq!(
        cache_control.as_ref().map(|value| value.type_.as_str()),
        Some("ephemeral")
    );
}

#[test]
fn prompt_cache_key_adds_cache_control_to_first_user_without_system_prompt() {
    let options = LanguageModelOptions {
        messages: vec![Message::User(UserMessage::new("User prompt")).into()],
        headers: Some(HashMap::from([(
            "session_id".to_string(),
            "session-xyz".to_string(),
        )])),
        ..Default::default()
    };

    let request: AnthropicOptions = options.into();
    let Some(AnthropicMessageParam::User { content }) = request.messages.first() else {
        panic!("expected first user message");
    };
    let AnthropicUserMessageContent::Blocks(blocks) = content else {
        panic!("expected user content blocks");
    };
    let Some(AnthropicUserMessageContentBlock::Text { cache_control, .. }) = blocks.first() else {
        panic!("expected user text block");
    };
    assert_eq!(
        cache_control.as_ref().map(|value| value.type_.as_str()),
        Some("ephemeral")
    );
}
