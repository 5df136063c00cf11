//! Bridges between one set of language-model types and the wire types of individual providers.
//!
//! The library holds the parts that compute: building an Anthropic request with its prompt-cache
//! marks, preparing OpenAI-style chat requests, and turning chat responses and stream events into
//! provider-independent contents. Sending and receiving is left to the caller.
pub mod error;
pub mod extensions;
pub mod json;
pub mod json_laws;
pub mod language_model;
pub mod messages;
pub mod providers;
pub mod sequences;
pub mod text;
pub mod tools;
pub mod view_laws;
