//! The credential that a request is sent with, and where it came from.
use vstd::prelude::*;

use vstd::string::StringExecFns;
use vstd::utf8::encode_utf8;
use crate::text::{contains_char, has_char, has_prefix, starts_with, str_eq};

verus! {

/// A resolved credential — either a static key, an OAuth bearer token,
/// or nothing (for local providers like Ollama that need no auth).
///
/// The rest of the codebase only ever sees this type; it never needs to know
/// whether the user configured an API key or went through an OAuth flow.
#[derive(Debug, Clone)]
pub enum Credential {
    /// A static API key or personal access token.
    ApiKey(String),
    /// A live OAuth bearer token (e.g. from `claw login`).
    BearerToken(String),
    /// No credential required (e.g. Ollama running locally).
    NoAuth,
}

/// A credential with its secret taken as a character sequence.
pub enum CredentialView {
    ApiKey(Seq<char>),
    BearerToken(Seq<char>),
    NoAuth,
}

impl CredentialView {
    /// The token that goes into request headers, if any.
    pub open spec fn token(self) -> Option<Seq<char>> {
        match self {
            CredentialView::ApiKey(k) => Some(k),
            CredentialView::BearerToken(t) => Some(t),
            CredentialView::NoAuth => None,
        }
    }
}

impl View for Credential {
    type V = CredentialView;

    open spec fn view(&self) -> CredentialView {
        match self {
            Credential::ApiKey(k) => CredentialView::ApiKey(k@),
            Credential::BearerToken(t) => CredentialView::BearerToken(t@),
            Credential::NoAuth => CredentialView::NoAuth,
        }
    }
}

impl Credential {
    /// Returns the value to use as an auth token in request headers,
    /// or None if no auth header should be sent.
    pub fn bearer_token(&self) -> (r: Option<&str>)
        ensures
            r matches Some(t) ==> self@.token() == Some(t@),
            r is None ==> self@.token() is None,
    {
        match self {
            Credential::ApiKey(key) => Some(key.as_str()),
            Credential::BearerToken(tok) => Some(tok.as_str()),
            Credential::NoAuth => None,
        }
    }

    /// True when no credential is available and none is required.
    pub fn is_none(&self) -> (r: bool)
        ensures
            r == (self@ matches CredentialView::NoAuth),
    {
        match self {
            Credential::NoAuth => true,
            _ => false,
        }
    }
}

/// Whether `s` has the shape of an API key for `provider`: a known key prefix
/// for Anthropic, OpenAI and xAI, and otherwise more than 20 bytes in UTF-8
/// with no space.
pub open spec fn api_key_shaped(s: Seq<char>, provider: Seq<char>) -> bool {
    if provider == "anthropic"@ {
        has_prefix(s, "sk-ant-"@)
    } else if provider == "openai"@ {
        has_prefix(s, "sk-"@)
    } else if provider == "xai"@ {
        has_prefix(s, "xai-"@)
    } else {
        encode_utf8(s).len() > 20 && !has_char(s, ' ')
    }
}

/// Heuristic to distinguish a pasted API key from other input.
/// Used in the interactive prompt to decide how to treat user input.
pub fn looks_like_api_key(s: &str, provider: &str) -> (r: bool)
    ensures
        r == api_key_shaped(s@, provider@),
{
    if str_eq(provider, "anthropic") {
        starts_with(s, "sk-ant-")
    } else if str_eq(provider, "openai") {
        starts_with(s, "sk-")
    } else if str_eq(provider, "xai") {
        starts_with(s, "xai-")
    } else {
        s.as_bytes().len() > 20 && !contains_char(s, ' ')
    }
}

/// Human-readable credential source — for diagnostic output only.
#[derive(Debug, Clone, Copy, PartialEq, Eq, Structural)]
pub enum CredentialSource {
    EnvVar,
    SavedOAuth,
    Interactive,
    NotRequired,
}

/// The words that describe a credential source.
pub open spec fn source_description(s: CredentialSource) -> Seq<char> {
    match s {
        CredentialSource::EnvVar => "environment variable"@,
        CredentialSource::SavedOAuth => "saved login session"@,
        CredentialSource::Interactive => "interactive prompt"@,
        CredentialSource::NotRequired => "not required"@,
    }
}

impl CredentialSource {
    /// The human-readable description of this source.
    pub fn to_string(&self) -> (r: String)
        ensures
            r@ == source_description(*self),
    {
        let s = match self {
            CredentialSource::EnvVar => "environment variable",
            CredentialSource::SavedOAuth => "saved login session",
            CredentialSource::Interactive => "interactive prompt",
            CredentialSource::NotRequired => "not required",
        };
        String::from_str(s)
    }
}

} // verus!

verus! {

/// A credential sends no auth header exactly when it is the no-credential
/// value: `bearer_token` gives `None` exactly when `is_none` gives `true`.
pub proof fn lemma_is_none_iff_no_bearer_token(c: Credential)
    ensures
        (c@ matches CredentialView::NoAuth) <==> c@.token() is None,
{
}

/// Every key that looks like an Anthropic key also looks like an OpenAI key,
/// since `sk-ant-` begins with `sk-`.
pub proof fn lemma_anthropic_keys_look_like_openai_keys(s: Seq<char>)
    requires
        api_key_shaped(s, "anthropic"@),
    ensures
        api_key_shaped(s, "openai"@),
{
    reveal_strlit("anthropic");
    reveal_strlit("openai");
    reveal_strlit("sk-ant-");
    reveal_strlit("sk-");
    assert(s.subrange(0, 3) =~= s.subrange(0, 7).subrange(0, 3));
    assert("sk-"@ =~= "sk-ant-"@.subrange(0, 3));
}

} // verus!

verus! {

/// The auth header carries the API key or the bearer token as it is, and no
/// credential sends no header.
pub proof fn lemma_bearer_token_values(k: Seq<char>)
    ensures
        CredentialView::ApiKey(k).token() == Some(k),
        CredentialView::BearerToken(k).token() == Some(k),
        CredentialView::NoAuth.token() is None,
{
}

/// The key shapes: Anthropic keys begin with `sk-ant-`, OpenAI keys with
/// `sk-`, xAI keys with `xai-`; for any other provider name a key is more
/// than 20 bytes of UTF-8 and holds no space.
pub proof fn lemma_api_key_shapes(s: Seq<char>, provider: Seq<char>)
    ensures
        provider == "anthropic"@ ==> (api_key_shaped(s, provider) <==> (7 <= s.len() && s.subrange(
            0,
            7,
        ) == "sk-ant-"@)),
        provider == "openai"@ ==> (api_key_shaped(s, provider) <==> (3 <= s.len() && s.subrange(0, 3)
            == "sk-"@)),
        provider == "xai"@ ==> (api_key_shaped(s, provider) <==> (4 <= s.len() && s.subrange(0, 4)
            == "xai-"@)),
        (provider != "anthropic"@ && provider != "openai"@ && provider != "xai"@) ==> (api_key_shaped(
            s,
            provider,
        ) <==> (encode_utf8(s).len() > 20 && forall|i: int| 0 <= i < s.len() ==> s[i] != ' ')),
{
    reveal_strlit("anthropic");
    reveal_strlit("openai");
    reveal_strlit("xai");
    reveal_strlit("sk-ant-");
    reveal_strlit("sk-");
    reveal_strlit("xai-");
    assert("anthropic"@[0] != "openai"@[0]);
    assert("anthropic"@[0] != "xai"@[0]);
    assert("openai"@[0] != "xai"@[0]);
}

/// The words for each credential source.
pub proof fn lemma_source_descriptions()
    ensures
        source_description(CredentialSource::EnvVar) == "environment variable"@,
        source_description(CredentialSource::SavedOAuth) == "saved login session"@,
        source_description(CredentialSource::Interactive) == "interactive prompt"@,
        source_description(CredentialSource::NotRequired) == "not required"@,
{
}

} // verus!
