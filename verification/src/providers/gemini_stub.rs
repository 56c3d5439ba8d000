//! The stand-in for a Gemini provider.

use vstd::prelude::*;
use crate::ipc::{ChatMessage, ProviderConfig, Tool, ToolResult};
use crate::providers::provider_trait::{Provider, ProviderReply, ProviderReplyView};

verus! {

/// A provider that answers every turn with a fixed text.
#[derive(Clone, Copy, Debug)]
pub struct GeminiStubProvider;

/// What the stand-in answers.
pub open spec fn gemini_stub_text() -> Seq<char> {
    "Gemini stub provider TODO: add real implementation with policy-aware tool calling."@
}

impl Provider for GeminiStubProvider {
    fn name(&self) -> (n: &'static str)
        ensures
            n@ == "gemini-stub"@,
    {
        "gemini-stub"
    }

    fn chat(
        &self,
        _messages: &[ChatMessage],
        _tools: &[Tool],
        _tool_results: &[ToolResult],
        _config: &ProviderConfig,
    ) -> (reply: ProviderReply)
        ensures
            reply@ == ProviderReplyView::FinalText(gemini_stub_text()),
    {
        ProviderReply::FinalText(
            "Gemini stub provider TODO: add real implementation with policy-aware tool calling.".to_string(),
        )
    }
}

} // verus!
