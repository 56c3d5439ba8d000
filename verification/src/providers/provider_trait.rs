//! What the orchestrator asks of a language-model provider.

use vstd::prelude::*;
use crate::ipc::{ChatMessage, ProviderConfig, Tool, ToolCall, ToolCallView, ToolResult};
use crate::model::views;

verus! {

/// A provider's answer to one turn: the final assistant text, or a batch of
/// tool calls it wants made first.
#[derive(Debug, PartialEq, Eq)]
pub enum ProviderReply {
    FinalText(String),
    ToolCalls(Vec<ToolCall>),
}

/// What contracts see of a [`ProviderReply`].
pub enum ProviderReplyView {
    FinalText(Seq<char>),
    ToolCalls(Seq<ToolCallView>),
}

impl View for ProviderReply {
    type V = ProviderReplyView;

    open spec fn view(&self) -> ProviderReplyView {
        match self {
            ProviderReply::FinalText(text) => ProviderReplyView::FinalText(text@),
            ProviderReply::ToolCalls(calls) => ProviderReplyView::ToolCalls(views(calls@)),
        }
    }
}

/// A language-model provider. `chat` sees the conversation, the tools on
/// offer and the results of the tool calls made so far in this turn; it
/// knows nothing of the store or the policy. Nothing is assumed of what an
/// implementation answers.
pub trait Provider {
    fn name(&self) -> &'static str;

    fn chat(
        &self,
        messages: &[ChatMessage],
        tools: &[Tool],
        tool_results: &[ToolResult],
        config: &ProviderConfig,
    ) -> ProviderReply;
}

} // verus!
