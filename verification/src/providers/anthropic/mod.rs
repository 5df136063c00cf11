//! Anthropic's messages API.
pub mod client;
pub mod conversation_laws;
pub mod conversions;
pub mod extensions;
pub mod header_laws;
pub mod headers;
pub mod laws;
pub mod mark_laws;
