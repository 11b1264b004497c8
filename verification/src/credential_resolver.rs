//! This is the resolution chain.
//! Each provider gets a ProviderCredentialConfig that describes where to look
//! and what the OAuth endpoints are. The resolver tries sources in order:
//!
//! 1. `LLM_AUTH_METHOD=apikey`  → read key from env var, fail if absent
//! 2. `LLM_AUTH_METHOD=oauth`   → load saved OAuth token, fail if absent/expired
//! 3. No `LLM_AUTH_METHOD` set  →
//!    a. provider-specific API key env var
//!    b. LLM_API_KEY generic env var
//!    c. saved OAuth token (if not expired, or expired but refreshable)
//!    d. interactive prompt (if a TTY is attached)
//!    e. error with a clear human-readable message
//!
//! The chain waits on outside work in three places: loading a saved token,
//! reading what the user types, and running the browser login. Each step here
//! takes what the previous piece of outside work gave and says what to do
//! next, as a [`ResolveAction`].
use vstd::prelude::*;

use crate::claw_provider::{oauth_token_is_expired, token_expired_at, OAuthTokenSet, OAuthTokenSetView};
use crate::credential::{looks_like_api_key, Credential, CredentialSource, CredentialView};
use crate::environment::{lookup, lookup_set, EnvSnapshot};
use crate::error::{strs_view, ApiError, ApiErrorView};
use crate::providers::credential::api_key_shaped;
use crate::providers::credential_resolver::opt_str_view;
use crate::text::{concat2, str_eq, trim, trimmed};
use vstd::string::StringExecFns;

verus! {

/// The kinds of provider that credentials are resolved for.
#[derive(Debug, Clone, Copy, PartialEq, Eq, Structural)]
pub enum ProviderKind {
    ClawApi,
    OpenAi,
    Xai,
    Ollama,
    Generic,
}

/// Everything needed to resolve credentials for one provider.
pub struct ProviderCredentialConfig {
    pub provider_name: &'static str,
    /// Primary env var for an API key (e.g. "ANTHROPIC_API_KEY").
    pub api_key_env: Option<&'static str>,
    /// Generic fallback env var always checked second.
    pub generic_key_env: &'static str,
    /// Where saved OAuth tokens are stored on disk (provider-scoped).
    pub oauth_token_path: Option<&'static str>,
    /// True when no credential is required (Ollama, local stacks).
    pub auth_optional: bool,
}

/// A provider configuration with its names taken as character sequences.
pub struct ProviderCredentialConfigView {
    pub provider_name: Seq<char>,
    pub api_key_env: Option<Seq<char>>,
    pub generic_key_env: Seq<char>,
    pub oauth_token_path: Option<Seq<char>>,
    pub auth_optional: bool,
}

impl View for ProviderCredentialConfig {
    type V = ProviderCredentialConfigView;

    open spec fn view(&self) -> ProviderCredentialConfigView {
        ProviderCredentialConfigView {
            provider_name: self.provider_name@,
            api_key_env: opt_str_view(self.api_key_env),
            generic_key_env: self.generic_key_env@,
            oauth_token_path: opt_str_view(self.oauth_token_path),
            auth_optional: self.auth_optional,
        }
    }
}

/// The configuration of each kind of provider.
pub open spec fn config_for_kind(kind: ProviderKind) -> ProviderCredentialConfigView {
    match kind {
        ProviderKind::ClawApi => ProviderCredentialConfigView {
            provider_name: "Anthropic"@,
            api_key_env: Some("ANTHROPIC_API_KEY"@),
            generic_key_env: "LLM_API_KEY"@,
            oauth_token_path: Some("anthropic"@),
            auth_optional: false,
        },
        ProviderKind::OpenAi => ProviderCredentialConfigView {
            provider_name: "OpenAI"@,
            api_key_env: Some("OPENAI_API_KEY"@),
            generic_key_env: "LLM_API_KEY"@,
            oauth_token_path: Some("openai"@),
            auth_optional: false,
        },
        ProviderKind::Xai => ProviderCredentialConfigView {
            provider_name: "xAI"@,
            api_key_env: Some("XAI_API_KEY"@),
            generic_key_env: "LLM_API_KEY"@,
            oauth_token_path: None,
            auth_optional: false,
        },
        ProviderKind::Ollama | ProviderKind::Generic => ProviderCredentialConfigView {
            provider_name: "local"@,
            api_key_env: None,
            generic_key_env: "LLM_API_KEY"@,
            oauth_token_path: None,
            auth_optional: true,
        },
    }
}

impl ProviderCredentialConfig {
    /// The configuration for a kind of provider.
    pub fn for_kind(kind: ProviderKind) -> (r: Self)
        ensures
            r@ == config_for_kind(kind),
    {
        match kind {
            ProviderKind::ClawApi => ProviderCredentialConfig {
                provider_name: "Anthropic",
                api_key_env: Some("ANTHROPIC_API_KEY"),
                generic_key_env: "LLM_API_KEY",
                oauth_token_path: Some("anthropic"),
                auth_optional: false,
            },
            ProviderKind::OpenAi => ProviderCredentialConfig {
                provider_name: "OpenAI",
                api_key_env: Some("OPENAI_API_KEY"),
                generic_key_env: "LLM_API_KEY",
                oauth_token_path: Some("openai"),
                auth_optional: false,
            },
            ProviderKind::Xai => ProviderCredentialConfig {
                provider_name: "xAI",
                api_key_env: Some("XAI_API_KEY"),
                generic_key_env: "LLM_API_KEY",
                oauth_token_path: None,  // xAI has no public OAuth yet
                auth_optional: false,
            },
            ProviderKind::Ollama | ProviderKind::Generic => ProviderCredentialConfig {
                provider_name: "local",
                api_key_env: None,
                generic_key_env: "LLM_API_KEY",
                oauth_token_path: None,
                auth_optional: true,
            },
        }
    }
}

/// What the resolver asks for next.
pub enum ResolveAction {
    /// Resolution is over, with this outcome.
    Finish(Result<(Credential, CredentialSource), ApiError>),
    /// Load the saved OAuth token of `scope` and hand the outcome to
    /// [`after_saved_token`]; `explicit` tells whether `LLM_AUTH_METHOD=oauth`
    /// asked for it.
    LoadSavedToken { scope: &'static str, explicit: bool },
    /// Show the interactive menu, read a line, and hand it to
    /// [`after_choice`].
    PromptForChoice,
    /// Ask for an API key, read a line, and hand it to [`after_pasted_key`].
    PromptForKey,
    /// Run the browser login for `scope` and hand the outcome to
    /// [`after_login`].
    RunOAuthLogin { scope: &'static str, provider_name: &'static str },
}

/// A resolution outcome with its strings taken as character sequences.
pub open spec fn resolution_view(r: Result<(Credential, CredentialSource), ApiError>) -> Result<
    (CredentialView, CredentialSource),
    ApiErrorView,
> {
    match r {
        Ok((c, s)) => Ok((c@, s)),
        Err(e) => Err(e@),
    }
}

/// What the resolver asks for next, with its strings taken as character
/// sequences.
pub enum ResolveActionView {
    Finish(Result<(CredentialView, CredentialSource), ApiErrorView>),
    LoadSavedToken { scope: Seq<char>, explicit: bool },
    PromptForChoice,
    PromptForKey,
    RunOAuthLogin { scope: Seq<char>, provider_name: Seq<char> },
}

impl View for ResolveAction {
    type V = ResolveActionView;

    open spec fn view(&self) -> ResolveActionView {
        match self {
            ResolveAction::Finish(r) => ResolveActionView::Finish(resolution_view(*r)),
            ResolveAction::LoadSavedToken { scope, explicit } => ResolveActionView::LoadSavedToken {
                scope: scope@,
                explicit: *explicit,
            },
            ResolveAction::PromptForChoice => ResolveActionView::PromptForChoice,
            ResolveAction::PromptForKey => ResolveActionView::PromptForKey,
            ResolveAction::RunOAuthLogin { scope, provider_name } => ResolveActionView::RunOAuthLogin {
                scope: scope@,
                provider_name: provider_name@,
            },
        }
    }
}

/// The error reported when no credential is found: it names the provider,
/// its own key variable (or `LLM_API_KEY` when it has none) and `LLM_API_KEY`.
pub open spec fn missing_credentials(config: ProviderCredentialConfigView) -> ApiErrorView {
    ApiErrorView::MissingCredentials {
        provider: config.provider_name,
        env_vars: seq![
            match config.api_key_env {
                Some(v) => v,
                None => "LLM_API_KEY"@,
            },
            "LLM_API_KEY"@,
        ],
    }
}

/// The error for a provider that has no saved OAuth login.
pub open spec fn oauth_unsupported(config: ProviderCredentialConfigView) -> ApiErrorView {
    ApiErrorView::Auth(config.provider_name + " does not support OAuth login"@)
}

/// The provider's own API key, when its variable is set.
pub open spec fn provider_key(
    config: ProviderCredentialConfigView,
    env: Seq<(Seq<char>, Seq<char>)>,
) -> Option<Seq<char>> {
    match config.api_key_env {
        Some(var) => lookup_set(env, var),
        None => None,
    }
}

/// Whether the interactive prompt may be shown.
pub open spec fn may_prompt(allow_interactive: bool, stdin_is_terminal: bool) -> bool {
    allow_interactive && stdin_is_terminal
}

/// The first step of resolution for `config` in the environment `env`.
pub open spec fn first_step(
    config: ProviderCredentialConfigView,
    env: Seq<(Seq<char>, Seq<char>)>,
    interactive: bool,
) -> ResolveActionView {
    let method = lookup(env, "LLM_AUTH_METHOD"@);
    let generic = lookup_set(env, "LLM_API_KEY"@);
    if config.auth_optional {
        ResolveActionView::Finish(
            match provider_key(config, env) {
                Some(k) => Ok((CredentialView::ApiKey(k), CredentialSource::EnvVar)),
                None => Ok((CredentialView::NoAuth, CredentialSource::NotRequired)),
            },
        )
    } else if method == Some("apikey"@) {
        ResolveActionView::Finish(
            match provider_key(config, env) {
                Some(k) => Ok((CredentialView::ApiKey(k), CredentialSource::EnvVar)),
                None => match generic {
                    Some(k) => Ok((CredentialView::ApiKey(k), CredentialSource::EnvVar)),
                    None => Err(missing_credentials(config)),
                },
            },
        )
    } else if method == Some("oauth"@) {
        match config.oauth_token_path {
            Some(scope) => ResolveActionView::LoadSavedToken { scope, explicit: true },
            None => ResolveActionView::Finish(Err(oauth_unsupported(config))),
        }
    } else {
        match provider_key(config, env) {
            Some(k) => ResolveActionView::Finish(
                Ok((CredentialView::ApiKey(k), CredentialSource::EnvVar)),
            ),
            None => match generic {
                Some(k) => ResolveActionView::Finish(
                    Ok((CredentialView::ApiKey(k), CredentialSource::EnvVar)),
                ),
                None => match config.oauth_token_path {
                    Some(scope) => ResolveActionView::LoadSavedToken { scope, explicit: false },
                    None => fallback(config, interactive),
                },
            },
        }
    }
}

/// What happens when every automatic source has come up empty: the prompt
/// when it may be shown, the error otherwise.
pub open spec fn fallback(config: ProviderCredentialConfigView, interactive: bool) -> ResolveActionView {
    if interactive {
        ResolveActionView::PromptForChoice
    } else {
        ResolveActionView::Finish(Err(missing_credentials(config)))
    }
}

/// The step after the saved token of the provider was looked up: `saved` is
/// the outcome of the lookup and `now` the time in seconds since the Unix
/// epoch.
pub open spec fn saved_token_step(
    config: ProviderCredentialConfigView,
    explicit: bool,
    saved: Result<OAuthTokenSetView, ApiErrorView>,
    now: u64,
    interactive: bool,
) -> ResolveActionView {
    if explicit {
        ResolveActionView::Finish(
            match saved {
                Ok(t) => Ok((CredentialView::OAuth(t), CredentialSource::SavedOAuth)),
                Err(e) => Err(e),
            },
        )
    } else {
        match saved {
            Ok(t) => if !token_expired_at(t, now) || t.refresh_token is Some {
                ResolveActionView::Finish(Ok((CredentialView::OAuth(t), CredentialSource::SavedOAuth)))
            } else {
                fallback(config, interactive)
            },
            Err(_) => fallback(config, interactive),
        }
    }
}

/// The step after the user answered the menu with the line `line`.
pub open spec fn choice_step(config: ProviderCredentialConfigView, line: Seq<char>) -> ResolveActionView {
    let input = trimmed(line);
    if input == "1"@ {
        ResolveActionView::RunOAuthLogin {
            scope: match config.oauth_token_path {
                Some(s) => s,
                None => "generic"@,
            },
            provider_name: config.provider_name,
        }
    } else if input == "2"@ {
        ResolveActionView::PromptForKey
    } else if api_key_shaped(input, config.provider_name) {
        ResolveActionView::Finish(Ok((CredentialView::ApiKey(input), CredentialSource::Interactive)))
    } else {
        ResolveActionView::Finish(
            Err(ApiErrorView::Auth("Unrecognised input. Run `claw login` to authenticate."@)),
        )
    }
}


/// The outcome when the user pasted the line `line` after choosing to paste
/// a key.
pub open spec fn pasted_key_outcome(line: Seq<char>) -> Result<(CredentialView, CredentialSource), ApiErrorView> {
    if trimmed(line).len() == 0 {
        Err(ApiErrorView::Auth("No key entered."@))
    } else {
        Ok((CredentialView::ApiKey(trimmed(line)), CredentialSource::Interactive))
    }
}

/// The outcome when the browser login gave `login`.
pub open spec fn login_outcome(login: Result<OAuthTokenSetView, ApiErrorView>) -> Result<(CredentialView, CredentialSource), ApiErrorView> {
    match login {
        Ok(t) => Ok((CredentialView::OAuth(t), CredentialSource::Interactive)),
        Err(e) => Err(e),
    }
}

/// A token set lookup outcome with its strings taken as character sequences.
pub open spec fn token_set_view(r: Result<OAuthTokenSet, ApiError>) -> Result<OAuthTokenSetView, ApiErrorView> {
    match r {
        Ok(t) => Ok(t@),
        Err(e) => Err(e@),
    }
}

/// The first step of the resolution chain (in order):
///
/// 1. `LLM_AUTH_METHOD=apikey`  → read key from env var, fail if absent
/// 2. `LLM_AUTH_METHOD=oauth`   → load saved OAuth token, fail if absent/expired
/// 3. No `LLM_AUTH_METHOD` set  →
///    a. provider-specific API key env var
///    b. LLM_API_KEY generic env var
///    c. saved OAuth token (if not expired)
///    d. interactive prompt (if allowed and a TTY is attached)
///    e. error with a clear human-readable message
///
/// `env` holds the environment variables; `allow_interactive` and
/// `stdin_is_terminal` decide whether the prompt may be shown.
pub fn resolve_credential(
    config: &ProviderCredentialConfig,
    env: &EnvSnapshot,
    allow_interactive: bool,
    stdin_is_terminal: bool,
) -> (r: ResolveAction)
    ensures
        r@ == first_step(config@, env@, may_prompt(allow_interactive, stdin_is_terminal)),
{
    if config.auth_optional {
        // Check if a key was voluntarily provided anyway (e.g. protected Ollama)
        if let Some(key) = optional_key_from_env(config, env) {
            return ResolveAction::Finish(Ok((Credential::ApiKey(key), CredentialSource::EnvVar)));
        }
        return ResolveAction::Finish(Ok((Credential::NoAuth, CredentialSource::NotRequired)));
    }

    // Expert override: explicit auth method
    if let Some(method) = env.get("LLM_AUTH_METHOD") {
        if str_eq(method.as_str(), "apikey") {
            return match required_key_from_env(config, env) {
                Ok(key) => ResolveAction::Finish(Ok((Credential::ApiKey(key), CredentialSource::EnvVar))),
                Err(e) => ResolveAction::Finish(Err(e)),
            };
        } else if str_eq(method.as_str(), "oauth") {
            return match saved_oauth_scope(config) {
                Ok(scope) => ResolveAction::LoadSavedToken { scope, explicit: true },
                Err(e) => ResolveAction::Finish(Err(e)),
            };
        }
    }

    // 3a. Provider-specific API key env var
    if let Some(key) = optional_key_from_env(config, env) {
        return ResolveAction::Finish(Ok((Credential::ApiKey(key), CredentialSource::EnvVar)));
    }

    // 3b. Generic LLM_API_KEY
    if let Some(key) = env.get_set("LLM_API_KEY") {
        return ResolveAction::Finish(Ok((Credential::ApiKey(key), CredentialSource::EnvVar)));
    }

    // 3c. Saved OAuth token
    match saved_oauth_scope(config) {
        Ok(scope) => ResolveAction::LoadSavedToken { scope, explicit: false },
        Err(_) => fallback_action(config, allow_interactive && stdin_is_terminal),
    }
}

/// The step after the saved OAuth token was looked up; `saved` is the outcome
/// of the lookup for the scope that [`ResolveAction::LoadSavedToken`] named,
/// `explicit` the flag it carried, and `now` the time in seconds since the
/// Unix epoch.
pub fn after_saved_token(
    config: &ProviderCredentialConfig,
    explicit: bool,
    saved: Result<OAuthTokenSet, ApiError>,
    now: u64,
    allow_interactive: bool,
    stdin_is_terminal: bool,
) -> (r: ResolveAction)
    ensures
        r@ == saved_token_step(
            config@,
            explicit,
            token_set_view(saved),
            now,
            may_prompt(allow_interactive, stdin_is_terminal),
        ),
{
    if explicit {
        return match saved {
            Ok(token) => ResolveAction::Finish(Ok((Credential::OAuth(token), CredentialSource::SavedOAuth))),
            Err(e) => ResolveAction::Finish(Err(e)),
        };
    }
    if let Ok(token) = saved {
        if !oauth_token_is_expired(&token, now) {
            return ResolveAction::Finish(Ok((Credential::OAuth(token), CredentialSource::SavedOAuth)));
        }
        // Expired but has refresh → caller should refresh, not re-login
        if token.refresh_token.is_some() {
            return ResolveAction::Finish(Ok((Credential::OAuth(token), CredentialSource::SavedOAuth)));
        }
        // Expired, no refresh → fall through to interactive
    }
    fallback_action(config, allow_interactive && stdin_is_terminal)
}

/// The prompt when it may be shown, else the error naming what was looked for.
fn fallback_action(config: &ProviderCredentialConfig, interactive: bool) -> (r: ResolveAction)
    ensures
        r@ == fallback(config@, interactive),
{
    // 3d. Interactive prompt (TTY only)
    if interactive {
        return ResolveAction::PromptForChoice;
    }
    // 3e. Clear error
    ResolveAction::Finish(Err(missing_credentials_error(config)))
}

/// The step after the user answered the interactive menu with `line`.
/// Naive users never need to understand API keys vs OAuth; they just type
/// what they have. The function sniffs the input and routes accordingly.
pub fn after_choice(config: &ProviderCredentialConfig, line: &str) -> (r: ResolveAction)
    ensures
        r@ == choice_step(config@, line@),
{
    let input = trim(line);
    if str_eq(input, "1") {
        // Delegate to the existing OAuth login flow
        let scope = match config.oauth_token_path {
            Some(s) => s,
            None => "generic",
        };
        ResolveAction::RunOAuthLogin { scope, provider_name: config.provider_name }
    } else if str_eq(input, "2") {
        ResolveAction::PromptForKey
    } else if looks_like_api_key(input, config.provider_name) {
        // User directly pasted a key — treat it as option 2
        ResolveAction::Finish(Ok((Credential::ApiKey(String::from_str(input)), CredentialSource::Interactive)))
    } else {
        ResolveAction::Finish(
            Err(ApiError::Auth(String::from_str("Unrecognised input. Run `claw login` to authenticate."))),
        )
    }
}

/// The outcome when the user pasted `line` at the key prompt.
pub fn after_pasted_key(line: &str) -> (r: Result<(Credential, CredentialSource), ApiError>)
    ensures
        resolution_view(r) == pasted_key_outcome(line@),
{
    let key = trim(line);
    if key.is_empty() {
        return Err(ApiError::Auth(String::from_str("No key entered.")));
    }
    Ok((Credential::ApiKey(String::from_str(key)), CredentialSource::Interactive))
}

/// The outcome when the browser login gave `login`.
pub fn after_login(login: Result<OAuthTokenSet, ApiError>) -> (r: Result<(Credential, CredentialSource), ApiError>)
    ensures
        resolution_view(r) == login_outcome(token_set_view(login)),
{
    match login {
        Ok(token) => Ok((Credential::OAuth(token), CredentialSource::Interactive)),
        Err(e) => Err(e),
    }
}

/// The error naming the provider, its own key variable (or `LLM_API_KEY`)
/// and `LLM_API_KEY`.
fn missing_credentials_error(config: &ProviderCredentialConfig) -> (r: ApiError)
    ensures
        r@ == missing_credentials(config@),
{
    let own = match config.api_key_env {
        Some(v) => v,
        None => "LLM_API_KEY",
    };
    let vars: Vec<&'static str> = vec![own, "LLM_API_KEY"];
    let r = ApiError::missing_credentials(config.provider_name, vars);
    assert(r@ =~= missing_credentials(config@)) by {
        assert(strs_view(vars@) =~= match missing_credentials(config@) {
            ApiErrorView::MissingCredentials { env_vars, .. } => env_vars,
            _ => seq![],
        });
    }
    r
}

/// The provider's own API key from the environment, when set and non-empty.
fn optional_key_from_env(config: &ProviderCredentialConfig, env: &EnvSnapshot) -> (r: Option<String>)
    ensures
        r matches Some(k) ==> provider_key(config@, env@) == Some(k@),
        r is None ==> provider_key(config@, env@) is None,
{
    match config.api_key_env {
        Some(var) => env.get_set(var),
        None => None,
    }
}

/// The provider's own API key, or else `LLM_API_KEY`; the missing-credentials
/// error when neither is set.
fn required_key_from_env(config: &ProviderCredentialConfig, env: &EnvSnapshot) -> (r: Result<String, ApiError>)
    ensures
        match r {
            Ok(k) => match provider_key(config@, env@) {
                Some(p) => k@ == p,
                None => lookup_set(env@, "LLM_API_KEY"@) == Some(k@),
            },
            Err(e) => provider_key(config@, env@) is None
                && lookup_set(env@, "LLM_API_KEY"@) is None
                && e@ == missing_credentials(config@),
        },
{
    match optional_key_from_env(config, env) {
        Some(k) => Ok(k),
        None => match env.get_set("LLM_API_KEY") {
            Some(k) => Ok(k),
            None => Err(missing_credentials_error(config)),
        },
    }
}

/// The scope under which the provider's OAuth tokens are saved, or an error
/// when the provider has no OAuth login.
fn saved_oauth_scope(config: &ProviderCredentialConfig) -> (r: Result<&'static str, ApiError>)
    ensures
        match r {
            Ok(scope) => config@.oauth_token_path == Some(scope@),
            Err(e) => config@.oauth_token_path is None && e@ == oauth_unsupported(config@),
        },
{
    match config.oauth_token_path {
        Some(scope) => Ok(scope),
        None => Err(ApiError::Auth(concat2(config.provider_name, " does not support OAuth login"))),
    }
}

} // verus!

verus! {

/// A provider needs no credential exactly when it has no API key variable,
/// and only Anthropic and OpenAI keep saved OAuth logins.
pub proof fn lemma_for_kind_shape(kind: ProviderKind)
    ensures
        config_for_kind(kind).auth_optional <==> config_for_kind(kind).api_key_env is None,
        config_for_kind(kind).auth_optional <==> (kind == ProviderKind::Ollama || kind
            == ProviderKind::Generic),
        config_for_kind(kind).oauth_token_path is Some <==> (kind == ProviderKind::ClawApi || kind
            == ProviderKind::OpenAi),
{
}

/// A provider whose auth is optional is resolved at once, with a key from its
/// own variable or with no credential: no token is loaded and no prompt shown.
pub proof fn lemma_optional_auth_finishes_at_once(
    config: ProviderCredentialConfigView,
    env: Seq<(Seq<char>, Seq<char>)>,
    interactive: bool,
)
    requires
        config.auth_optional,
    ensures
        first_step(config, env, interactive) matches ResolveActionView::Finish(Ok(_)),
{
}

/// With `LLM_AUTH_METHOD=apikey` the chain ends at once, with a key from the
/// environment or the missing-credentials error.
pub proof fn lemma_apikey_method_finishes_at_once(
    config: ProviderCredentialConfigView,
    env: Seq<(Seq<char>, Seq<char>)>,
    interactive: bool,
)
    requires
        !config.auth_optional,
        lookup(env, "LLM_AUTH_METHOD"@) == Some("apikey"@),
    ensures
        first_step(config, env, interactive) matches ResolveActionView::Finish(r) && match r {
            Ok((c, s)) => c matches CredentialView::ApiKey(_) && s == CredentialSource::EnvVar,
            Err(e) => e == missing_credentials(config),
        },
{
}

/// The prompt is shown only when it is allowed and a terminal is attached.
pub proof fn lemma_prompt_only_when_interactive(
    config: ProviderCredentialConfigView,
    env: Seq<(Seq<char>, Seq<char>)>,
    explicit: bool,
    saved: Result<OAuthTokenSetView, ApiErrorView>,
    now: u64,
    allow_interactive: bool,
    stdin_is_terminal: bool,
)
    ensures
        first_step(config, env, may_prompt(allow_interactive, stdin_is_terminal))
            matches ResolveActionView::PromptForChoice ==> allow_interactive && stdin_is_terminal,
        saved_token_step(config, explicit, saved, now, may_prompt(allow_interactive, stdin_is_terminal))
            matches ResolveActionView::PromptForChoice ==> allow_interactive && stdin_is_terminal,
{
}

/// Outside `LLM_AUTH_METHOD=oauth`, a saved token is never handed out when
/// it has expired and cannot be refreshed.
pub proof fn lemma_saved_token_not_expired(
    config: ProviderCredentialConfigView,
    saved: Result<OAuthTokenSetView, ApiErrorView>,
    now: u64,
    interactive: bool,
)
    ensures
        saved_token_step(config, false, saved, now, interactive) matches ResolveActionView::Finish(
            Ok((c, _)),
        ) ==> !c.expired_at(now),
{
}

/// A saved token that carries a refresh token is always handed out, however
/// old it is, so that the caller can refresh it instead of logging in again.
pub proof fn lemma_refreshable_saved_token_accepted(
    config: ProviderCredentialConfigView,
    token: OAuthTokenSetView,
    now: u64,
    interactive: bool,
)
    requires
        token.refresh_token is Some,
    ensures
        saved_token_step(config, false, Ok(token), now, interactive) == ResolveActionView::Finish(
            Ok((CredentialView::OAuth(token), CredentialSource::SavedOAuth)),
        ),
{
}

/// A key pasted at the key prompt is never empty.
pub proof fn lemma_pasted_key_not_empty(line: Seq<char>)
    ensures
        pasted_key_outcome(line) matches Ok((c, _)) ==> (c.token() matches Some(k) && k.len() > 0),
{
}

} // verus!

verus! {

/// With `LLM_AUTH_METHOD=apikey`, the provider's own key variable is read
/// first: when it is set, its value is the credential, whatever
/// `LLM_API_KEY` holds and whether or not a prompt may be shown.
pub proof fn lemma_apikey_method_prefers_own_key(
    config: ProviderCredentialConfigView,
    env: Seq<(Seq<char>, Seq<char>)>,
    interactive: bool,
    var: Seq<char>,
    key: Seq<char>,
)
    requires
        !config.auth_optional,
        lookup(env, "LLM_AUTH_METHOD"@) == Some("apikey"@),
        config.api_key_env == Some(var),
        lookup_set(env, var) == Some(key),
    ensures
        first_step(config, env, interactive) == ResolveActionView::Finish(
            Ok((CredentialView::ApiKey(key), CredentialSource::EnvVar)),
        ),
{
}

/// With `LLM_AUTH_METHOD=apikey` and no own key set, `LLM_API_KEY` is the
/// credential when it is set; when it is not, the outcome is the error that
/// names the provider, its own key variable (or `LLM_API_KEY`) and
/// `LLM_API_KEY`. No token is loaded and no prompt is shown.
pub proof fn lemma_apikey_method_generic_fallback(
    config: ProviderCredentialConfigView,
    env: Seq<(Seq<char>, Seq<char>)>,
    interactive: bool,
)
    requires
        !config.auth_optional,
        lookup(env, "LLM_AUTH_METHOD"@) == Some("apikey"@),
        forall|v: Seq<char>| config.api_key_env == Some(v) ==> lookup_set(env, v) is None,
    ensures
        first_step(config, env, interactive) == ResolveActionView::Finish(
            match lookup_set(env, "LLM_API_KEY"@) {
                Some(g) => Ok((CredentialView::ApiKey(g), CredentialSource::EnvVar)),
                None => Err(
                    ApiErrorView::MissingCredentials {
                        provider: config.provider_name,
                        env_vars: seq![
                            match config.api_key_env {
                                Some(v) => v,
                                None => "LLM_API_KEY"@,
                            },
                            "LLM_API_KEY"@,
                        ],
                    },
                ),
            },
        ),
{
    if let Some(v) = config.api_key_env {
        assert(lookup_set(env, v) is None);
    }
}

/// With `LLM_AUTH_METHOD=oauth`, the environment's keys are ignored: the
/// saved token of the provider's scope is loaded, or, for a provider without
/// a scope, resolution fails with "<provider> does not support OAuth login".
pub proof fn lemma_oauth_method_loads_saved_token(
    config: ProviderCredentialConfigView,
    env: Seq<(Seq<char>, Seq<char>)>,
    interactive: bool,
)
    requires
        !config.auth_optional,
        lookup(env, "LLM_AUTH_METHOD"@) == Some("oauth"@),
    ensures
        first_step(config, env, interactive) == match config.oauth_token_path {
            Some(scope) => ResolveActionView::LoadSavedToken { scope, explicit: true },
            None => ResolveActionView::Finish(
                Err(ApiErrorView::Auth(config.provider_name + " does not support OAuth login"@)),
            ),
        },
{
    reveal_strlit("apikey");
    reveal_strlit("oauth");
    assert("apikey"@ != "oauth"@) by {
        assert("apikey"@[0] != "oauth"@[0]);
    }
}

/// Without an auth method override, the sources are tried in order: the
/// provider's own key, then `LLM_API_KEY`, then the saved token of the
/// provider's scope, then the prompt (when it may be shown), and only then
/// the missing-credentials error.
pub proof fn lemma_default_chain_order(
    config: ProviderCredentialConfigView,
    env: Seq<(Seq<char>, Seq<char>)>,
    interactive: bool,
)
    requires
        !config.auth_optional,
        lookup(env, "LLM_AUTH_METHOD"@) != Some("apikey"@),
        lookup(env, "LLM_AUTH_METHOD"@) != Some("oauth"@),
    ensures
        ({
            let own = match config.api_key_env {
                Some(v) => lookup_set(env, v),
                None => None,
            };
            first_step(config, env, interactive) == match own {
                Some(k) => ResolveActionView::Finish(
                    Ok((CredentialView::ApiKey(k), CredentialSource::EnvVar)),
                ),
                None => match lookup_set(env, "LLM_API_KEY"@) {
                    Some(g) => ResolveActionView::Finish(
                        Ok((CredentialView::ApiKey(g), CredentialSource::EnvVar)),
                    ),
                    None => match config.oauth_token_path {
                        Some(scope) => ResolveActionView::LoadSavedToken { scope, explicit: false },
                        None => if interactive {
                            ResolveActionView::PromptForChoice
                        } else {
                            ResolveActionView::Finish(
                                Err(
                                    ApiErrorView::MissingCredentials {
                                        provider: config.provider_name,
                                        env_vars: seq![
                                            match config.api_key_env {
                                                Some(v) => v,
                                                None => "LLM_API_KEY"@,
                                            },
                                            "LLM_API_KEY"@,
                                        ],
                                    },
                                ),
                            )
                        },
                    },
                },
            }
        }),
{
}

/// A provider whose auth is optional takes its own key when set and is
/// otherwise resolved to no credential, whatever else the environment holds.
pub proof fn lemma_optional_auth_outcome(
    config: ProviderCredentialConfigView,
    env: Seq<(Seq<char>, Seq<char>)>,
    interactive: bool,
)
    requires
        config.auth_optional,
    ensures
        first_step(config, env, interactive) == ResolveActionView::Finish(
            match config.api_key_env {
                Some(v) => match lookup_set(env, v) {
                    Some(k) => Ok((CredentialView::ApiKey(k), CredentialSource::EnvVar)),
                    None => Ok((CredentialView::NoAuth, CredentialSource::NotRequired)),
                },
                None => Ok((CredentialView::NoAuth, CredentialSource::NotRequired)),
            },
        ),
{
}

/// After a saved token was looked up outside `LLM_AUTH_METHOD=oauth`: a token
/// that has not expired, or that carries a refresh token, is handed out as
/// a saved login; a failed lookup and an expired token without refresh token
/// both go on to the prompt when it may be shown, and to the
/// missing-credentials error otherwise.
pub proof fn lemma_saved_token_step_outcome(
    config: ProviderCredentialConfigView,
    saved: Result<OAuthTokenSetView, ApiErrorView>,
    now: u64,
    interactive: bool,
)
    ensures
        ({
            let go_on = if interactive {
                ResolveActionView::PromptForChoice
            } else {
                ResolveActionView::Finish(
                    Err(
                        ApiErrorView::MissingCredentials {
                            provider: config.provider_name,
                            env_vars: seq![
                                match config.api_key_env {
                                    Some(v) => v,
                                    None => "LLM_API_KEY"@,
                                },
                                "LLM_API_KEY"@,
                            ],
                        },
                    ),
                )
            };
            saved_token_step(config, false, saved, now, interactive) == match saved {
                Ok(t) => if (t.expires_at matches Some(e) && e <= now) && t.refresh_token is None {
                    go_on
                } else {
                    ResolveActionView::Finish(
                        Ok((CredentialView::OAuth(t), CredentialSource::SavedOAuth)),
                    )
                },
                Err(_) => go_on,
            }
        }),
{
}

/// A failed saved-token lookup leads exactly where an expired token without
/// refresh token does.
pub proof fn lemma_failed_lookup_is_like_expired_token(
    config: ProviderCredentialConfigView,
    e: ApiErrorView,
    t: OAuthTokenSetView,
    now: u64,
    interactive: bool,
)
    requires
        t.expires_at matches Some(x) && x <= now,
        t.refresh_token is None,
    ensures
        saved_token_step(config, false, Err(e), now, interactive) == saved_token_step(
            config,
            false,
            Ok(t),
            now,
            interactive,
        ),
        saved_token_step(config, false, Err(e), now, true) == ResolveActionView::PromptForChoice,
{
}

/// When `LLM_AUTH_METHOD=oauth` asked for the saved token, its lookup is the
/// outcome: the token set as it is, expired or not, or the lookup's error.
pub proof fn lemma_explicit_saved_token_outcome(
    config: ProviderCredentialConfigView,
    saved: Result<OAuthTokenSetView, ApiErrorView>,
    now: u64,
    interactive: bool,
)
    ensures
        saved_token_step(config, true, saved, now, interactive) == ResolveActionView::Finish(
            match saved {
                Ok(t) => Ok((CredentialView::OAuth(t), CredentialSource::SavedOAuth)),
                Err(e) => Err(e),
            },
        ),
{
}

/// The interactive menu: "1" starts the browser login for the provider's
/// scope (or "generic"), "2" asks for a key, text shaped like an API key is
/// taken as the key, and anything else is refused; the line is read without
/// surrounding white space.
pub proof fn lemma_choice_outcome(config: ProviderCredentialConfigView, line: Seq<char>)
    ensures
        trimmed(line) == "1"@ ==> (choice_step(config, line) == (ResolveActionView::RunOAuthLogin {
            scope: match config.oauth_token_path {
                Some(s) => s,
                None => "generic"@,
            },
            provider_name: config.provider_name,
        })),
        trimmed(line) == "2"@ ==> (choice_step(config, line) == ResolveActionView::PromptForKey),
        (trimmed(line) != "1"@ && trimmed(line) != "2"@ && api_key_shaped(
            trimmed(line),
            config.provider_name,
        )) ==> (choice_step(config, line) == ResolveActionView::Finish(
            Ok((CredentialView::ApiKey(trimmed(line)), CredentialSource::Interactive)),
        )),
        (trimmed(line) != "1"@ && trimmed(line) != "2"@ && !api_key_shaped(
            trimmed(line),
            config.provider_name,
        )) ==> (choice_step(config, line) == ResolveActionView::Finish(
            Err(ApiErrorView::Auth("Unrecognised input. Run `claw login` to authenticate."@)),
        )),
{
    reveal_strlit("1");
    reveal_strlit("2");
    assert("1"@ != "2"@) by {
        assert("1"@[0] != "2"@[0]);
    }
}

/// A pasted key is the pasted line without surrounding white space; an empty
/// one is refused with "No key entered.".
pub proof fn lemma_pasted_key_outcome(line: Seq<char>)
    ensures
        trimmed(line).len() == 0 ==> (pasted_key_outcome(line) == Err::<
            (CredentialView, CredentialSource),
            _,
        >(ApiErrorView::Auth("No key entered."@))),
        trimmed(line).len() > 0 ==> (pasted_key_outcome(line) == Ok::<_, ApiErrorView>(
            (CredentialView::ApiKey(trimmed(line)), CredentialSource::Interactive),
        )),
{
}

/// The browser login's token set becomes an interactive OAuth credential, and
/// its error is passed on unchanged.
pub proof fn lemma_login_outcome(login: Result<OAuthTokenSetView, ApiErrorView>)
    ensures
        login matches Ok(t) ==> login_outcome(login) == Ok::<_, ApiErrorView>(
            (CredentialView::OAuth(t), CredentialSource::Interactive),
        ),
        login matches Err(e) ==> login_outcome(login) == Err::<(CredentialView, CredentialSource), _>(e),
{
}

/// The configuration of each provider kind: its name, its key variable, its
/// OAuth scope and whether auth is optional.
pub proof fn lemma_for_kind_table(kind: ProviderKind)
    ensures
        kind == ProviderKind::ClawApi ==> config_for_kind(kind).provider_name == "Anthropic"@
            && config_for_kind(kind).api_key_env == Some("ANTHROPIC_API_KEY"@)
            && config_for_kind(kind).oauth_token_path == Some("anthropic"@),
        kind == ProviderKind::OpenAi ==> config_for_kind(kind).provider_name == "OpenAI"@
            && config_for_kind(kind).api_key_env == Some("OPENAI_API_KEY"@)
            && config_for_kind(kind).oauth_token_path == Some("openai"@),
        kind == ProviderKind::Xai ==> config_for_kind(kind).provider_name == "xAI"@
            && config_for_kind(kind).api_key_env == Some("XAI_API_KEY"@)
            && config_for_kind(kind).oauth_token_path is None,
        (kind == ProviderKind::Ollama || kind == ProviderKind::Generic) ==> config_for_kind(
            kind,
        ).provider_name == "local"@ && config_for_kind(kind).api_key_env is None
            && config_for_kind(kind).oauth_token_path is None,
        config_for_kind(kind).generic_key_env == "LLM_API_KEY"@,
        config_for_kind(kind).auth_optional <==> (kind == ProviderKind::Ollama || kind
            == ProviderKind::Generic),
{
}

} // verus!
