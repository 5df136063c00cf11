//! The chat-completions API of OpenAI and of providers that speak the same protocol.
pub mod event_laws;
pub mod language_model;
pub mod laws;
pub mod prompt_caching;
pub mod request_laws;
pub mod response_laws;
pub mod stream;
pub mod stream_laws;
pub mod types;
