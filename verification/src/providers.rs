//! Providers of language-model APIs and the credentials they take.
use vstd::prelude::*;

pub mod credential;
pub mod credential_resolver;

verus! {

/// The kinds of provider that credentials are resolved for.
#[derive(Debug, Clone, Copy, PartialEq, Eq, Structural)]
pub enum ProviderKind {
    Anthropic,
    OpenAi,
    Xai,
    Ollama,
    Generic,
}

} // verus!
