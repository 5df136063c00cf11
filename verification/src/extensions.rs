//! What providers attach to a piece of content beside the content itself.
use crate::providers::anthropic::extensions::AnthropicThinkingMetadata;
use vstd::prelude::*;

verus! {

/// Provider-specific data on a piece of content.
#[derive(Debug, Clone, PartialEq)]
pub struct Extensions {
    pub anthropic_thinking: AnthropicThinkingMetadata,
}

impl Default for Extensions {
    fn default() -> (r: Self)
        ensures
            r.anthropic_thinking.signature is None,
    {
        Extensions { anthropic_thinking: AnthropicThinkingMetadata { signature: None } }
    }
}

} // verus!
