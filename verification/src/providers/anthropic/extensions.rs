//! What Anthropic attaches to a piece of content.
use vstd::prelude::*;

verus! {

/// The signature by which Anthropic recognises its own thinking.
#[derive(Debug, Clone, PartialEq)]
pub struct AnthropicThinkingMetadata {
    pub signature: Option<String>,
}

} // verus!
