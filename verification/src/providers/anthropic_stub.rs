//! The stand-in for an Anthropic provider.

use vstd::prelude::*;
use crate::ipc::{ChatMessage, ProviderConfig, Tool, ToolResult};
use crate::providers::provider_trait::{Provider, ProviderReply, ProviderReplyView};

verus! {

/// A provider that answers every turn with a fixed text.
#[derive(Clone, Copy, Debug)]
pub struct AnthropicStubProvider;

/// What the stand-in answers.
pub open spec fn anthropic_stub_text() -> Seq<char> {
    "Anthropic stub provider TODO: add SDK/plugin integration via JSON-RPC process plugin."@
}

impl Provider for AnthropicStubProvider {
    fn name(&self) -> (n: &'static str)
        ensures
            n@ == "anthropic-stub"@,
    {
        "anthropic-stub"
    }

    fn chat(
        &self,
        _messages: &[ChatMessage],
        _tools: &[Tool],
        _tool_results: &[ToolResult],
        _config: &ProviderConfig,
    ) -> (reply: ProviderReply)
        ensures
            reply@ == ProviderReplyView::FinalText(anthropic_stub_text()),
    {
        ProviderReply::FinalText(
            "Anthropic stub provider TODO: add SDK/plugin integration via JSON-RPC process plugin.".to_string(),
        )
    }
}

} // verus!
