//! Language-model providers: the capability the orchestrator consumes and
//! the built-in implementations.

pub mod anthropic_stub;
pub mod gemini_stub;
pub mod openai_http;
pub mod openai_stub;
pub mod provider_trait;

use vstd::prelude::*;
use crate::providers::anthropic_stub::AnthropicStubProvider;
use crate::providers::gemini_stub::GeminiStubProvider;
use crate::providers::openai_http::OpenAiHttpProvider;
use crate::providers::openai_stub::OpenAiStubProvider;
use crate::text::same_text;

verus! {

/// The built-in providers, as a sum type.
#[derive(Clone, Copy, Debug)]
pub enum ProviderChoice {
    OpenAi(OpenAiHttpProvider),
    OpenAiStub(OpenAiStubProvider),
    Anthropic(AnthropicStubProvider),
    Gemini(GeminiStubProvider),
}

/// The built-in providers, by kind.
#[derive(Clone, Copy, Debug, PartialEq, Eq, Structural)]
pub enum ProviderKind {
    OpenAi,
    OpenAiStub,
    Anthropic,
    Gemini,
}

/// The provider that serves the name `name`. A name that no provider
/// claims is served by the OpenAI stand-in.
pub open spec fn kind_named(name: Seq<char>) -> ProviderKind {
    if name == "openai"@ {
        ProviderKind::OpenAi
    } else if name == "anthropic"@ || name == "anthropic-stub"@ {
        ProviderKind::Anthropic
    } else if name == "gemini"@ || name == "gemini-stub"@ {
        ProviderKind::Gemini
    } else {
        ProviderKind::OpenAiStub
    }
}

/// The name a provider gives itself.
pub open spec fn kind_name(kind: ProviderKind) -> Seq<char> {
    match kind {
        ProviderKind::OpenAi => "openai"@,
        ProviderKind::OpenAiStub => "openai-stub"@,
        ProviderKind::Anthropic => "anthropic-stub"@,
        ProviderKind::Gemini => "gemini-stub"@,
    }
}

impl ProviderChoice {
    /// The kind of this provider.
    pub open spec fn kind(&self) -> ProviderKind {
        match self {
            ProviderChoice::OpenAi(_) => ProviderKind::OpenAi,
            ProviderChoice::OpenAiStub(_) => ProviderKind::OpenAiStub,
            ProviderChoice::Anthropic(_) => ProviderKind::Anthropic,
            ProviderChoice::Gemini(_) => ProviderKind::Gemini,
        }
    }

    /// The provider that serves the name `name`.
    pub fn by_name(name: &str) -> (choice: Self)
        ensures
            choice.kind() == kind_named(name@),
    {
        if same_text(name, "openai") {
            ProviderChoice::OpenAi(OpenAiHttpProvider)
        } else if same_text(name, "anthropic") || same_text(name, "anthropic-stub") {
            ProviderChoice::Anthropic(AnthropicStubProvider)
        } else if same_text(name, "gemini") || same_text(name, "gemini-stub") {
            ProviderChoice::Gemini(GeminiStubProvider)
        } else {
            ProviderChoice::OpenAiStub(OpenAiStubProvider)
        }
    }

    /// The name this provider gives itself.
    pub fn name(&self) -> (n: &'static str)
        ensures
            n@ == kind_name(self.kind()),
    {
        match self {
            ProviderChoice::OpenAi(_) => "openai",
            ProviderChoice::OpenAiStub(_) => "openai-stub",
            ProviderChoice::Anthropic(_) => "anthropic-stub",
            ProviderChoice::Gemini(_) => "gemini-stub",
        }
    }
}

} // verus!
