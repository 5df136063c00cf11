//! One module per provider.
pub mod anthropic;
pub mod openai_chat_completions;
