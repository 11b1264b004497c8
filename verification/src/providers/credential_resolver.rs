//! Credential resolution chain for all supported providers.
//!
//! Resolution order (stops at first match):
//!
//! 1. `LLM_AUTH_METHOD=apikey`  → read key from env, fail if absent
//! 2. `LLM_AUTH_METHOD=oauth`   → load saved OAuth token, fail if absent/expired
//! 3. No `LLM_AUTH_METHOD` set  →
//!    a. Provider-specific API key env var (e.g. `ANTHROPIC_API_KEY`)
//!    b. OAuth token env vars (`OPENCLAW_GATEWAY_TOKEN`, then the provider's own)
//!    c. `LLM_API_KEY` generic fallback
//!    d. Saved OAuth token (if present and not expired)
//!    e. Clear error with actionable message
//!
//! The environment comes in as an [`EnvSnapshot`], the saved token file as a
//! [`SavedTokenFile`] and the clock as a number of seconds, so that every step
//! of the chain is stated and proved here.
use vstd::prelude::*;

use crate::environment::{lookup, lookup_set, EnvSnapshot};
use crate::error::{strs_view, ApiError, ApiErrorView};
use crate::providers::credential::{Credential, CredentialSource, CredentialView};
use crate::providers::ProviderKind;
use crate::text::{
    concat2, concat3, lowercased, replace_char, replace_char_in, str_eq, to_lowercase, trim, trimmed,
};
use vstd::string::StringExecFns;

verus! {

/// Everything needed to resolve credentials for one provider.
pub struct ProviderCredentialConfig {
    pub provider_name: &'static str,
    /// Primary env var for an API key (None = auth not required).
    pub api_key_env: Option<&'static str>,
    /// Generic fallback always checked second.
    pub generic_key_env: &'static str,
    /// OAuth token env var fallback (e.g. OPENAI_OAUTH).
    pub oauth_env: Option<&'static str>,
    /// True when no credential is required (Ollama, local stacks).
    pub auth_optional: bool,
}

/// The character sequence of an optional string slice.
pub open spec fn opt_str_view(s: Option<&'static str>) -> Option<Seq<char>> {
    match s {
        Some(v) => Some(v@),
        None => None,
    }
}

/// A provider configuration with its names taken as character sequences.
pub struct ProviderCredentialConfigView {
    pub provider_name: Seq<char>,
    pub api_key_env: Option<Seq<char>>,
    pub generic_key_env: Seq<char>,
    pub oauth_env: Option<Seq<char>>,
    pub auth_optional: bool,
}

impl View for ProviderCredentialConfig {
    type V = ProviderCredentialConfigView;

    open spec fn view(&self) -> ProviderCredentialConfigView {
        ProviderCredentialConfigView {
            provider_name: self.provider_name@,
            api_key_env: opt_str_view(self.api_key_env),
            generic_key_env: self.generic_key_env@,
            oauth_env: opt_str_view(self.oauth_env),
            auth_optional: self.auth_optional,
        }
    }
}

/// The configuration of each kind of provider.
pub open spec fn config_for_kind(kind: ProviderKind) -> ProviderCredentialConfigView {
    match kind {
        ProviderKind::Anthropic => ProviderCredentialConfigView {
            provider_name: "Anthropic"@,
            api_key_env: Some("ANTHROPIC_API_KEY"@),
            generic_key_env: "LLM_API_KEY"@,
            oauth_env: None,
            auth_optional: false,
        },
        ProviderKind::OpenAi => ProviderCredentialConfigView {
            provider_name: "OpenAI"@,
            api_key_env: Some("OPENAI_API_KEY"@),
            generic_key_env: "LLM_API_KEY"@,
            oauth_env: Some("OPENAI_OAUTH"@),
            auth_optional: false,
        },
        ProviderKind::Xai => ProviderCredentialConfigView {
            provider_name: "xAI"@,
            api_key_env: Some("XAI_API_KEY"@),
            generic_key_env: "LLM_API_KEY"@,
            oauth_env: None,
            auth_optional: false,
        },
        ProviderKind::Ollama | ProviderKind::Generic => ProviderCredentialConfigView {
            provider_name: "local"@,
            api_key_env: None,
            generic_key_env: "LLM_API_KEY"@,
            oauth_env: None,
            auth_optional: true,
        },
    }
}

impl ProviderCredentialConfig {
    /// The configuration for a kind of provider.
    pub fn for_kind(kind: ProviderKind) -> (r: Self)
        ensures
            r@ == config_for_kind(kind),
    {
        match kind {
            ProviderKind::Anthropic => ProviderCredentialConfig {
                provider_name: "Anthropic",
                api_key_env: Some("ANTHROPIC_API_KEY"),
                generic_key_env: "LLM_API_KEY",
                oauth_env: None,
                auth_optional: false,
            },
            ProviderKind::OpenAi => ProviderCredentialConfig {
                provider_name: "OpenAI",
                api_key_env: Some("OPENAI_API_KEY"),
                oauth_env: Some("OPENAI_OAUTH"),
                generic_key_env: "LLM_API_KEY",
                auth_optional: false,
            },
            ProviderKind::Xai => ProviderCredentialConfig {
                provider_name: "xAI",
                api_key_env: Some("XAI_API_KEY"),
                generic_key_env: "LLM_API_KEY",
                oauth_env: None,
                auth_optional: false,
            },
            ProviderKind::Ollama | ProviderKind::Generic => ProviderCredentialConfig {
                provider_name: "local",
                api_key_env: None,
                generic_key_env: "LLM_API_KEY",
                oauth_env: None,
                auth_optional: true,
            },
        }
    }
}

/// A resolution outcome with its strings taken as character sequences.
pub open spec fn resolution_view(r: Result<(Credential, CredentialSource), ApiError>) -> Result<
    (CredentialView, CredentialSource),
    ApiErrorView,
> {
    match r {
        Ok((c, s)) => Ok((c@, s)),
        Err(e) => Err(e@),
    }
}

/// A token lookup outcome with its strings taken as character sequences.
pub open spec fn token_result_view(r: Result<String, ApiError>) -> Result<Seq<char>, ApiErrorView> {
    match r {
        Ok(t) => Ok(t@),
        Err(e) => Err(e@),
    }
}

/// The error reported when no credential is found: it names the provider
/// and the variables that would have supplied a credential.
pub open spec fn missing_credentials(config: ProviderCredentialConfigView) -> ApiErrorView {
    let vars = if config.api_key_env == Some("ANTHROPIC_API_KEY"@) {
        seq!["ANTHROPIC_API_KEY"@, "LLM_API_KEY"@]
    } else if config.api_key_env == Some("OPENAI_API_KEY"@) {
        seq!["OPENAI_API_KEY"@, "OPENAI_OAUTH"@, "LLM_API_KEY"@]
    } else if config.api_key_env == Some("XAI_API_KEY"@) {
        seq!["XAI_API_KEY"@, "LLM_API_KEY"@]
    } else {
        seq!["LLM_API_KEY"@]
    };
    ApiErrorView::MissingCredentials { provider: config.provider_name, env_vars: vars }
}

/// The provider's own API key, when its variable is set.
pub open spec fn provider_key(
    config: ProviderCredentialConfigView,
    env: Seq<(Seq<char>, Seq<char>)>,
) -> Option<Seq<char>> {
    match config.api_key_env {
        Some(var) => lookup_set(env, var),
        None => None,
    }
}

/// The OAuth token from the environment: `OPENCLAW_GATEWAY_TOKEN` first,
/// then the provider's own OAuth variable.
pub open spec fn env_oauth_token(
    config: ProviderCredentialConfigView,
    env: Seq<(Seq<char>, Seq<char>)>,
) -> Option<Seq<char>> {
    match lookup_set(env, "OPENCLAW_GATEWAY_TOKEN"@) {
        Some(t) => Some(t),
        None => match config.oauth_env {
            Some(var) => lookup_set(env, var),
            None => None,
        },
    }
}

/// The outcome of the resolution chain for `config` in the environment `env`,
/// where `saved` is what loading the saved OAuth token gives.
pub open spec fn resolution(
    config: ProviderCredentialConfigView,
    env: Seq<(Seq<char>, Seq<char>)>,
    saved: Result<Seq<char>, ApiErrorView>,
) -> Result<(CredentialView, CredentialSource), ApiErrorView> {
    let generic = lookup_set(env, "LLM_API_KEY"@);
    let method = lookup(env, "LLM_AUTH_METHOD"@);
    if config.auth_optional {
        match provider_key(config, env) {
            Some(k) => Ok((CredentialView::ApiKey(k), CredentialSource::EnvVar)),
            None => Ok((CredentialView::NoAuth, CredentialSource::NotRequired)),
        }
    } else if method == Some("apikey"@) {
        match provider_key(config, env) {
            Some(k) => Ok((CredentialView::ApiKey(k), CredentialSource::EnvVar)),
            None => match generic {
                Some(k) => Ok((CredentialView::ApiKey(k), CredentialSource::EnvVar)),
                None => Err(missing_credentials(config)),
            },
        }
    } else if method == Some("oauth"@) {
        match saved {
            Ok(t) => Ok((CredentialView::BearerToken(t), CredentialSource::SavedOAuth)),
            Err(e) => Err(e),
        }
    } else {
        match provider_key(config, env) {
            Some(k) => Ok((CredentialView::ApiKey(k), CredentialSource::EnvVar)),
            None => match env_oauth_token(config, env) {
                Some(t) => Ok((CredentialView::BearerToken(t), CredentialSource::EnvVar)),
                None => match generic {
                    Some(k) => Ok((CredentialView::ApiKey(k), CredentialSource::EnvVar)),
                    None => match saved {
                        Ok(t) => Ok((CredentialView::BearerToken(t), CredentialSource::SavedOAuth)),
                        Err(_) => Err(missing_credentials(config)),
                    },
                },
            },
        }
    }
}

/// Resolves the credential for `config` from the environment `env`.
///
/// `saved` is the outcome of [`load_saved_oauth`] for the provider; it is used
/// when `LLM_AUTH_METHOD=oauth` and as the last source of the default chain.
///
/// # Errors
/// Returns `ApiError::MissingCredentials` when no credential can be found
/// and `auth_optional` is false.
pub fn resolve_credential_from_env(
    config: &ProviderCredentialConfig,
    env: &EnvSnapshot,
    saved: Result<String, ApiError>,
) -> (r: Result<(Credential, CredentialSource), ApiError>)
    ensures
        resolution_view(r) == resolution(config@, env@, token_result_view(saved)),
{
    // Optional providers (Ollama, generic local)
    if config.auth_optional {
        if let Some(key) = optional_key_from_env(config, env) {
            return Ok((Credential::ApiKey(key), CredentialSource::EnvVar));
        }
        return Ok((Credential::NoAuth, CredentialSource::NotRequired));
    }

    // Expert override: explicit auth method
    match env.get("LLM_AUTH_METHOD") {
        Some(method) => {
            if str_eq(method.as_str(), "apikey") {
                let key = required_key_from_env(config, env)?;
                return Ok((Credential::ApiKey(key), CredentialSource::EnvVar));
            } else if str_eq(method.as_str(), "oauth") {
                let token = saved?;
                return Ok((Credential::BearerToken(token), CredentialSource::SavedOAuth));
            }
        },
        None => {},
    }

    // 3a. Provider-specific API key env var
    if let Some(key) = optional_key_from_env(config, env) {
        return Ok((Credential::ApiKey(key), CredentialSource::EnvVar));
    }

    // 3b. OAuth env var fallback: the gateway token, then the provider's own
    if let Some(token) = env.get_set("OPENCLAW_GATEWAY_TOKEN") {
        return Ok((Credential::BearerToken(token), CredentialSource::EnvVar));
    }
    if let Some(var) = config.oauth_env {
        if let Some(token) = env.get_set(var) {
            return Ok((Credential::BearerToken(token), CredentialSource::EnvVar));
        }
    }

    // 3c. Generic LLM_API_KEY
    if let Some(key) = env.get_set("LLM_API_KEY") {
        return Ok((Credential::ApiKey(key), CredentialSource::EnvVar));
    }

    // 3d. Saved OAuth token
    if let Ok(token) = saved {
        return Ok((Credential::BearerToken(token), CredentialSource::SavedOAuth));
    }

    // 3e. Clear error
    Err(missing_credentials_error(config))
}

/// Build a MissingCredentials error naming the variables that would have
/// supplied a credential for `config`.
pub fn missing_credentials_error(config: &ProviderCredentialConfig) -> (r: ApiError)
    ensures
        r@ == missing_credentials(config@),
{
    let vars: Vec<&'static str> = match config.api_key_env {
        Some(var) => {
            if str_eq(var, "ANTHROPIC_API_KEY") {
                vec!["ANTHROPIC_API_KEY", "LLM_API_KEY"]
            } else if str_eq(var, "OPENAI_API_KEY") {
                vec!["OPENAI_API_KEY", "OPENAI_OAUTH", "LLM_API_KEY"]
            } else if str_eq(var, "XAI_API_KEY") {
                vec!["XAI_API_KEY", "LLM_API_KEY"]
            } else {
                vec!["LLM_API_KEY"]
            }
        },
        None => vec!["LLM_API_KEY"],
    };
    let r = ApiError::missing_credentials(config.provider_name, vars);
    assert(r@ =~= missing_credentials(config@)) by {
        assert(strs_view(vars@) =~= match missing_credentials(config@) {
            ApiErrorView::MissingCredentials { env_vars, .. } => env_vars,
            _ => seq![],
        });
    }
    r
}

/// The provider's own API key from the environment, when set and non-empty.
fn optional_key_from_env(config: &ProviderCredentialConfig, env: &EnvSnapshot) -> (r: Option<String>)
    ensures
        r matches Some(k) ==> provider_key(config@, env@) == Some(k@),
        r is None ==> provider_key(config@, env@) is None,
{
    match config.api_key_env {
        Some(var) => env.get_set(var),
        None => None,
    }
}

/// The provider's own API key, or else `LLM_API_KEY`; an error naming both
/// when neither is set.
fn required_key_from_env(config: &ProviderCredentialConfig, env: &EnvSnapshot) -> (r: Result<String, ApiError>)
    ensures
        token_result_view(r) == match provider_key(config@, env@) {
            Some(k) => Ok(k),
            None => match lookup_set(env@, "LLM_API_KEY"@) {
                Some(k) => Ok(k),
                None => Err(missing_credentials(config@)),
            },
        },
{
    match optional_key_from_env(config, env) {
        Some(k) => Ok(k),
        None => match env.get_set("LLM_API_KEY") {
            Some(k) => Ok(k),
            None => Err(missing_credentials_error(config)),
        },
    }
}

/// What the saved token file of a provider gave: nothing at its path, a read
/// error, or its text.
pub enum SavedTokenFile {
    Missing,
    Unreadable(std::io::Error),
    Contents(String),
}

/// The fields of a saved token file that resolution reads: `expires_at` as
/// an unsigned integer, whether `refresh_token` is null or absent, and
/// `access_token` as a string.
pub struct TokenFileFields {
    pub expires_at: Option<u64>,
    pub refresh_token_is_null: bool,
    pub access_token: Option<String>,
}

impl View for TokenFileFields {
    type V = (Option<u64>, bool, Option<Seq<char>>);

    open spec fn view(&self) -> (Option<u64>, bool, Option<Seq<char>>) {
        (
            self.expires_at,
            self.refresh_token_is_null,
            match self.access_token {
                Some(t) => Some(t@),
                None => None,
            },
        )
    }
}

/// The fields that `serde_json` reads from the JSON text `text`, or `None`
/// when `text` is not valid JSON.
pub uninterp spec fn json_token_fields(text: Seq<char>) -> Option<(Option<u64>, bool, Option<Seq<char>>)>;

/// Parses `text` with `serde_json::from_str` into a `serde_json::Value` and
/// reads three of its fields with `Value`'s `Index<&str>`, `as_u64`,
/// `is_null` and `as_str`. The contract claims that the outcome is a function
/// of `text` alone, named `json_token_fields`: an error exactly when that
/// name gives `None`, and otherwise the fields that it gives.
#[verifier::external_body]
fn parse_token_file(text: &str) -> (r: Result<TokenFileFields, serde_json::Error>)
    ensures
        r is Ok <==> json_token_fields(text@) is Some,
        r matches Ok(f) ==> json_token_fields(text@) == Some(f@),
{
    let v: serde_json::Value = serde_json::from_str(text)?;
    Ok(TokenFileFields {
        expires_at: v["expires_at"].as_u64(),
        refresh_token_is_null: v["refresh_token"].is_null(),
        access_token: v["access_token"].as_str().map(|s| s.to_string()),
    })
}

/// The access token that the fields `f` of a saved token file give at the
/// time `now` (seconds since the Unix epoch): an error when the token has
/// expired and has no refresh token, or when it has no access token.
pub open spec fn token_from_fields(
    provider_name: Seq<char>,
    f: (Option<u64>, bool, Option<Seq<char>>),
    now: u64,
) -> Result<Seq<char>, ApiErrorView> {
    let (expires_at, refresh_is_null, access) = f;
    if expires_at matches Some(e) && now > e && refresh_is_null {
        Err(
            ApiErrorView::Auth(
                "saved OAuth token for "@ + provider_name + " has expired; run `claw login`"@,
            ),
        )
    } else {
        match access {
            Some(t) => Ok(t),
            None => Err(ApiErrorView::Auth("malformed OAuth token file for "@ + provider_name)),
        }
    }
}

/// The access token held in the fields of a saved token file, checked
/// against the time `now` (seconds since the Unix epoch).
pub fn saved_token_from_fields(provider_name: &str, fields: &TokenFileFields, now: u64) -> (r:
    Result<String, ApiError>)
    ensures
        token_result_view(r) == token_from_fields(provider_name@, fields@, now),
{
    if let Some(expires_at) = fields.expires_at {
        if now > expires_at && fields.refresh_token_is_null {
            return Err(
                ApiError::Auth(
                    concat3("saved OAuth token for ", provider_name, " has expired; run `claw login`"),
                ),
            );
        }
    }
    match &fields.access_token {
        Some(t) => Ok(t.clone()),
        None => Err(ApiError::Auth(concat2("malformed OAuth token file for ", provider_name))),
    }
}

/// The name of the file that holds the saved OAuth token of a provider:
/// the provider's name in lowercase with spaces turned into underscores,
/// followed by `_oauth.json`.
pub open spec fn token_file_name(provider_name: Seq<char>) -> Seq<char> {
    replace_char(lowercased(provider_name), ' ', '_') + "_oauth.json"@
}

/// The name of the saved token file of `provider_name`, to be looked up in
/// the directory `~/.config/claw`.
pub fn saved_token_file_name(provider_name: &str) -> (r: String)
    ensures
        r@ == token_file_name(provider_name@),
{
    let lower = to_lowercase(provider_name);
    let key = replace_char_in(lower.as_str(), ' ', '_');
    key.concat("_oauth.json")
}

/// Load a saved OAuth access token for the given provider from what its
/// token file gave, at the time `now` (seconds since the Unix epoch).
pub fn load_saved_oauth(provider_name: &str, file: SavedTokenFile, now: u64) -> (r: Result<
    String,
    ApiError,
>)
    ensures
        file matches SavedTokenFile::Missing ==> token_result_view(r) == Err::<Seq<char>, _>(
            ApiErrorView::Auth("no saved OAuth token found for "@ + provider_name@),
        ),
        file matches SavedTokenFile::Unreadable(e) ==> token_result_view(r) == Err::<
            Seq<char>,
            _,
        >(ApiErrorView::Io(e)),
        file matches SavedTokenFile::Contents(text) ==> match json_token_fields(text@) {
            Some(f) => token_result_view(r) == token_from_fields(provider_name@, f, now),
            None => r matches Err(ApiError::Json(_)),
        },
{
    match file {
        SavedTokenFile::Missing => Err(
            ApiError::Auth(concat2("no saved OAuth token found for ", provider_name)),
        ),
        SavedTokenFile::Unreadable(e) => Err(ApiError::Io(e)),
        SavedTokenFile::Contents(text) => match parse_token_file(text.as_str()) {
            Ok(fields) => saved_token_from_fields(provider_name, &fields, now),
            Err(e) => Err(ApiError::Json(e)),
        },
    }
}

/// The key that a user typed at the prompt: the line without surrounding
/// white space, or an error when nothing remains.
pub fn read_prompted_key(line: &str) -> (r: Result<String, ApiError>)
    ensures
        token_result_view(r) == if trimmed(line@).len() == 0 {
            Err(ApiErrorView::Auth("no key entered"@))
        } else {
            Ok(trimmed(line@))
        },
{
    let key = trim(line);
    if key.is_empty() {
        return Err(ApiError::Auth(String::from_str("no key entered")));
    }
    Ok(String::from_str(key))
}

} // verus!

verus! {

/// A provider needs no credential exactly when it has no API key variable,
/// which is the case of the local kinds (Ollama and generic); every kind
/// falls back on `LLM_API_KEY`.
pub proof fn lemma_for_kind_optional_auth(kind: ProviderKind)
    ensures
        config_for_kind(kind).auth_optional <==> config_for_kind(kind).api_key_env is None,
        config_for_kind(kind).auth_optional <==> (kind == ProviderKind::Ollama || kind
            == ProviderKind::Generic),
        config_for_kind(kind).generic_key_env == "LLM_API_KEY"@,
{
}

/// Resolution never fails for a provider whose auth is optional.
pub proof fn lemma_optional_auth_never_fails(
    config: ProviderCredentialConfigView,
    env: Seq<(Seq<char>, Seq<char>)>,
    saved: Result<Seq<char>, ApiErrorView>,
)
    requires
        config.auth_optional,
    ensures
        resolution(config, env, saved) is Ok,
{
}

/// The local kinds of provider resolve to no credential, whatever the
/// environment and the saved token.
pub proof fn lemma_local_kinds_need_no_credential(
    kind: ProviderKind,
    env: Seq<(Seq<char>, Seq<char>)>,
    saved: Result<Seq<char>, ApiErrorView>,
)
    requires
        kind == ProviderKind::Ollama || kind == ProviderKind::Generic,
    ensures
        resolution(config_for_kind(kind), env, saved) == Ok::<_, ApiErrorView>(
            (CredentialView::NoAuth, CredentialSource::NotRequired),
        ),
{
}

/// A resolved credential is the no-credential value exactly when its source
/// is "not required", and a credential read from the environment is never
/// empty.
pub proof fn lemma_resolved_credential_shape(
    config: ProviderCredentialConfigView,
    env: Seq<(Seq<char>, Seq<char>)>,
    saved: Result<Seq<char>, ApiErrorView>,
)
    ensures
        resolution(config, env, saved) matches Ok((c, s)) ==> {
            &&& (c matches CredentialView::NoAuth) <==> s == CredentialSource::NotRequired
            &&& s == CredentialSource::EnvVar ==> (c.token() matches Some(t) && t.len() > 0)
        },
{
}

/// The provider's own key variable takes precedence over every other source
/// unless `LLM_AUTH_METHOD=oauth` asks for the saved token.
pub proof fn lemma_provider_key_takes_precedence(
    config: ProviderCredentialConfigView,
    env: Seq<(Seq<char>, Seq<char>)>,
    saved: Result<Seq<char>, ApiErrorView>,
    key: Seq<char>,
)
    requires
        provider_key(config, env) == Some(key),
        lookup(env, "LLM_AUTH_METHOD"@) != Some("oauth"@),
    ensures
        resolution(config, env, saved) == Ok::<_, ApiErrorView>(
            (CredentialView::ApiKey(key), CredentialSource::EnvVar),
        ),
{
}

/// When some credential variable is set, resolution succeeds from the
/// environment without touching the saved token, unless
/// `LLM_AUTH_METHOD=oauth` asks for the saved token.
pub proof fn lemma_set_variable_resolves(
    config: ProviderCredentialConfigView,
    env: Seq<(Seq<char>, Seq<char>)>,
    saved1: Result<Seq<char>, ApiErrorView>,
    saved2: Result<Seq<char>, ApiErrorView>,
)
    requires
        lookup(env, "LLM_AUTH_METHOD"@) != Some("oauth"@),
        provider_key(config, env) is Some || lookup_set(env, "LLM_API_KEY"@) is Some,
    ensures
        resolution(config, env, saved1) matches Ok((_, s)) && s != CredentialSource::SavedOAuth,
        resolution(config, env, saved1) == resolution(config, env, saved2),
{
}

/// A variable set to the empty string counts as unset: two environments
/// that agree on every non-empty variable give the same outcome.
pub proof fn lemma_empty_variables_count_as_unset(
    config: ProviderCredentialConfigView,
    env1: Seq<(Seq<char>, Seq<char>)>,
    env2: Seq<(Seq<char>, Seq<char>)>,
    saved: Result<Seq<char>, ApiErrorView>,
)
    requires
        forall|name: Seq<char>| #[trigger] lookup_set(env1, name) == lookup_set(env2, name),
    ensures
        resolution(config, env1, saved) == resolution(config, env2, saved),
{
    let m = "LLM_AUTH_METHOD"@;
    assert(lookup_set(env1, m) == lookup_set(env2, m));
    assert(lookup_set(env1, "LLM_API_KEY"@) == lookup_set(env2, "LLM_API_KEY"@));
    assert(lookup_set(env1, "OPENCLAW_GATEWAY_TOKEN"@) == lookup_set(
        env2,
        "OPENCLAW_GATEWAY_TOKEN"@,
    ));
    if let Some(v) = config.api_key_env {
        assert(lookup_set(env1, v) == lookup_set(env2, v));
    }
    if let Some(v) = config.oauth_env {
        assert(lookup_set(env1, v) == lookup_set(env2, v));
    }
    reveal_strlit("apikey");
    reveal_strlit("oauth");
    assert(lookup(env1, m) == Some("apikey"@) <==> lookup(env2, m) == Some("apikey"@));
    assert(lookup(env1, m) == Some("oauth"@) <==> lookup(env2, m) == Some("oauth"@));
}

/// A saved token accepted at some time is accepted, with the same value, at
/// every earlier time: expiry only ever takes a token away.
pub proof fn lemma_saved_token_valid_earlier(
    provider_name: Seq<char>,
    f: (Option<u64>, bool, Option<Seq<char>>),
    earlier: u64,
    later: u64,
)
    requires
        earlier <= later,
        token_from_fields(provider_name, f, later) is Ok,
    ensures
        token_from_fields(provider_name, f, earlier) == token_from_fields(provider_name, f, later),
{
}

/// A saved token that has a refresh token is never refused for its age.
pub proof fn lemma_refreshable_token_never_expires(
    provider_name: Seq<char>,
    f: (Option<u64>, bool, Option<Seq<char>>),
    now: u64,
)
    requires
        !f.1,
    ensures
        token_from_fields(provider_name, f, now) == match f.2 {
            Some(t) => Ok(t),
            None => Err(ApiErrorView::Auth("malformed OAuth token file for "@ + provider_name)),
        },
{
}

/// A saved token file name holds no space and ends in `_oauth.json`.
pub proof fn lemma_token_file_name_shape(provider_name: Seq<char>)
    ensures
        !crate::text::has_char(token_file_name(provider_name), ' '),
        token_file_name(provider_name).subrange(
            token_file_name(provider_name).len() - 11,
            token_file_name(provider_name).len() as int,
        ) == "_oauth.json"@,
{
    reveal_strlit("_oauth.json");
    let base = replace_char(lowercased(provider_name), ' ', '_');
    let name = token_file_name(provider_name);
    assert forall|i: int| 0 <= i < name.len() implies name[i] != ' ' by {
        if i < base.len() {
            assert(base[i] == (if lowercased(provider_name)[i] == ' ' { '_' } else {
                lowercased(provider_name)[i]
            }));
        } else {
            assert(name[i] == "_oauth.json"@[i - base.len()]);
        }
    }
    assert(name.subrange(name.len() - 11, name.len() as int) =~= "_oauth.json"@);
}

} // verus!

verus! {

/// With `LLM_AUTH_METHOD=oauth` the outcome depends on the saved token alone:
/// its token as a saved login, or exactly its error, whatever else the
/// environment holds (gateway and OAuth variables included).
pub proof fn lemma_oauth_method_uses_saved_token_only(
    config: ProviderCredentialConfigView,
    env: Seq<(Seq<char>, Seq<char>)>,
    saved: Result<Seq<char>, ApiErrorView>,
)
    requires
        !config.auth_optional,
        lookup(env, "LLM_AUTH_METHOD"@) == Some("oauth"@),
    ensures
        saved matches Ok(t) ==> resolution(config, env, saved) == Ok::<_, ApiErrorView>(
            (CredentialView::BearerToken(t), CredentialSource::SavedOAuth),
        ),
        saved matches Err(e) ==> resolution(config, env, saved) == Err::<
            (CredentialView, CredentialSource),
            _,
        >(e),
{
    reveal_strlit("apikey");
    reveal_strlit("oauth");
    assert("apikey"@[0] != "oauth"@[0]);
}

/// Two environments that both ask for `LLM_AUTH_METHOD=oauth` give the same
/// outcome.
pub proof fn lemma_oauth_method_ignores_environment(
    config: ProviderCredentialConfigView,
    env1: Seq<(Seq<char>, Seq<char>)>,
    env2: Seq<(Seq<char>, Seq<char>)>,
    saved: Result<Seq<char>, ApiErrorView>,
)
    requires
        !config.auth_optional,
        lookup(env1, "LLM_AUTH_METHOD"@) == Some("oauth"@),
        lookup(env2, "LLM_AUTH_METHOD"@) == Some("oauth"@),
    ensures
        resolution(config, env1, saved) == resolution(config, env2, saved),
{
    lemma_oauth_method_uses_saved_token_only(config, env1, saved);
    lemma_oauth_method_uses_saved_token_only(config, env2, saved);
}

/// With `LLM_AUTH_METHOD=apikey` the provider's own key variable comes first
/// and `LLM_API_KEY` only when it is unset; with neither, the
/// missing-credentials error. OAuth tokens and the saved token are not used.
pub proof fn lemma_apikey_method_outcome(
    config: ProviderCredentialConfigView,
    env: Seq<(Seq<char>, Seq<char>)>,
    saved: Result<Seq<char>, ApiErrorView>,
)
    requires
        !config.auth_optional,
        lookup(env, "LLM_AUTH_METHOD"@) == Some("apikey"@),
    ensures
        ({
            let own = match config.api_key_env {
                Some(v) => lookup_set(env, v),
                None => None,
            };
            resolution(config, env, saved) == match own {
                Some(k) => Ok((CredentialView::ApiKey(k), CredentialSource::EnvVar)),
                None => match lookup_set(env, "LLM_API_KEY"@) {
                    Some(g) => Ok((CredentialView::ApiKey(g), CredentialSource::EnvVar)),
                    None => Err(missing_credentials(config)),
                },
            }
        }),
{
}

/// Without an auth method override, the sources are tried in order and the
/// first one set wins: the provider's own key, `OPENCLAW_GATEWAY_TOKEN`, the
/// provider's own OAuth variable, `LLM_API_KEY`, the saved token; the
/// missing-credentials error comes only when all of them are absent.
pub proof fn lemma_default_chain_order(
    config: ProviderCredentialConfigView,
    env: Seq<(Seq<char>, Seq<char>)>,
    saved: Result<Seq<char>, ApiErrorView>,
)
    requires
        !config.auth_optional,
        lookup(env, "LLM_AUTH_METHOD"@) != Some("apikey"@),
        lookup(env, "LLM_AUTH_METHOD"@) != Some("oauth"@),
    ensures
        ({
            let own = match config.api_key_env {
                Some(v) => lookup_set(env, v),
                None => None,
            };
            let provider_oauth = match config.oauth_env {
                Some(v) => lookup_set(env, v),
                None => None,
            };
            resolution(config, env, saved) == match own {
                Some(k) => Ok((CredentialView::ApiKey(k), CredentialSource::EnvVar)),
                None => match lookup_set(env, "OPENCLAW_GATEWAY_TOKEN"@) {
                    Some(t) => Ok((CredentialView::BearerToken(t), CredentialSource::EnvVar)),
                    None => match provider_oauth {
                        Some(t) => Ok((CredentialView::BearerToken(t), CredentialSource::EnvVar)),
                        None => match lookup_set(env, "LLM_API_KEY"@) {
                            Some(g) => Ok((CredentialView::ApiKey(g), CredentialSource::EnvVar)),
                            None => match saved {
                                Ok(t) => Ok(
                                    (CredentialView::BearerToken(t), CredentialSource::SavedOAuth),
                                ),
                                Err(_) => Err(missing_credentials(config)),
                            },
                        },
                    },
                },
            }
        }),
{
}

/// A provider whose auth is optional takes its own key when set and is
/// otherwise resolved to no credential, whatever else is set or saved.
pub proof fn lemma_optional_auth_outcome(
    config: ProviderCredentialConfigView,
    env: Seq<(Seq<char>, Seq<char>)>,
    saved: Result<Seq<char>, ApiErrorView>,
)
    requires
        config.auth_optional,
    ensures
        resolution(config, env, saved) == match config.api_key_env {
            Some(v) => match lookup_set(env, v) {
                Some(k) => Ok((CredentialView::ApiKey(k), CredentialSource::EnvVar)),
                None => Ok((CredentialView::NoAuth, CredentialSource::NotRequired)),
            },
            None => Ok::<_, ApiErrorView>((CredentialView::NoAuth, CredentialSource::NotRequired)),
        },
{
}

/// The missing-credentials error names the provider and the variables that
/// would have supplied a credential: Anthropic's key and `LLM_API_KEY`;
/// OpenAI's key, `OPENAI_OAUTH` and `LLM_API_KEY`; xAI's key and
/// `LLM_API_KEY`; for any other provider `LLM_API_KEY` alone.
pub proof fn lemma_missing_credentials_names(config: ProviderCredentialConfigView)
    ensures
        missing_credentials(config) == (ApiErrorView::MissingCredentials {
            provider: config.provider_name,
            env_vars: if config.api_key_env == Some("ANTHROPIC_API_KEY"@) {
                seq!["ANTHROPIC_API_KEY"@, "LLM_API_KEY"@]
            } else if config.api_key_env == Some("OPENAI_API_KEY"@) {
                seq!["OPENAI_API_KEY"@, "OPENAI_OAUTH"@, "LLM_API_KEY"@]
            } else if config.api_key_env == Some("XAI_API_KEY"@) {
                seq!["XAI_API_KEY"@, "LLM_API_KEY"@]
            } else {
                seq!["LLM_API_KEY"@]
            },
        }),
{
}

/// Only OpenAI reads an OAuth variable of its own, `OPENAI_OAUTH`; every
/// other kind reads none.
pub proof fn lemma_only_openai_has_oauth_env(kind: ProviderKind)
    ensures
        config_for_kind(kind).oauth_env is Some <==> kind == ProviderKind::OpenAi,
        kind == ProviderKind::OpenAi ==> config_for_kind(kind).oauth_env == Some("OPENAI_OAUTH"@),
{
}

/// A bearer token taken from the environment for a configured provider is
/// the gateway token, or, for OpenAI only, the value of `OPENAI_OAUTH`: one
/// provider's OAuth token is never sent to another.
pub proof fn lemma_env_bearer_token_origin(
    kind: ProviderKind,
    env: Seq<(Seq<char>, Seq<char>)>,
    saved: Result<Seq<char>, ApiErrorView>,
    t: Seq<char>,
)
    requires
        resolution(config_for_kind(kind), env, saved) == Ok::<_, ApiErrorView>(
            (CredentialView::BearerToken(t), CredentialSource::EnvVar),
        ),
    ensures
        lookup_set(env, "OPENCLAW_GATEWAY_TOKEN"@) == Some(t) || (kind == ProviderKind::OpenAi
            && lookup_set(env, "OPENAI_OAUTH"@) == Some(t)),
{
}

/// The configuration of each provider kind: its name, its key variable, its
/// OAuth variable and whether auth is optional.
pub proof fn lemma_for_kind_table(kind: ProviderKind)
    ensures
        kind == ProviderKind::Anthropic ==> config_for_kind(kind).provider_name == "Anthropic"@
            && config_for_kind(kind).api_key_env == Some("ANTHROPIC_API_KEY"@),
        kind == ProviderKind::OpenAi ==> config_for_kind(kind).provider_name == "OpenAI"@
            && config_for_kind(kind).api_key_env == Some("OPENAI_API_KEY"@),
        kind == ProviderKind::Xai ==> config_for_kind(kind).provider_name == "xAI"@
            && config_for_kind(kind).api_key_env == Some("XAI_API_KEY"@),
        (kind == ProviderKind::Ollama || kind == ProviderKind::Generic) ==> config_for_kind(
            kind,
        ).provider_name == "local"@ && config_for_kind(kind).api_key_env is None,
        config_for_kind(kind).generic_key_env == "LLM_API_KEY"@,
{
}

/// The access token of a saved token file: refused as expired exactly when
/// the expiry time lies before `now` and the refresh token is null or
/// absent; otherwise the access token, or "malformed" when there is none.
pub proof fn lemma_token_from_fields_outcome(
    provider_name: Seq<char>,
    f: (Option<u64>, bool, Option<Seq<char>>),
    now: u64,
)
    ensures
        ((f.0 matches Some(e) && now > e) && f.1) ==> token_from_fields(provider_name, f, now)
            == Err::<Seq<char>, _>(
            ApiErrorView::Auth(
                "saved OAuth token for "@ + provider_name + " has expired; run `claw login`"@,
            ),
        ),
        !((f.0 matches Some(e) && now > e) && f.1) ==> token_from_fields(provider_name, f, now)
            == match f.2 {
            Some(t) => Ok(t),
            None => Err(ApiErrorView::Auth("malformed OAuth token file for "@ + provider_name)),
        },
{
}

} // verus!

verus! {

/// A token file name is the provider's lowercase name, character by
/// character, with each space turned into an underscore, followed by
/// `_oauth.json`.
pub proof fn lemma_token_file_name_chars(provider_name: Seq<char>)
    ensures
        token_file_name(provider_name).len() == lowercased(provider_name).len() + 11,
        forall|i: int|
            0 <= i < lowercased(provider_name).len() ==> token_file_name(provider_name)[i] == if #[trigger] lowercased(
                provider_name,
            )[i] == ' ' {
                '_'
            } else {
                lowercased(provider_name)[i]
            },
        token_file_name(provider_name).subrange(
            lowercased(provider_name).len() as int,
            token_file_name(provider_name).len() as int,
        ) == "_oauth.json"@,
{
    reveal_strlit("_oauth.json");
    let l = lowercased(provider_name);
    let name = token_file_name(provider_name);
    assert(name.subrange(l.len() as int, name.len() as int) =~= "_oauth.json"@);
}

} // verus!
