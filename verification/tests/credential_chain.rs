use claw_credentials::claw_provider::{oauth_token_is_expired, OAuthTokenSet};
use claw_credentials::credential::{looks_like_api_key, Credential, CredentialSource};
use claw_credentials::credential_resolver::{
    after_choice, after_login, after_pasted_key, after_saved_token, resolve_credential,
    ProviderCredentialConfig, ProviderKind, ResolveAction,
};
use claw_credentials::environment::EnvSnapshot;
use claw_credentials::error::ApiError;

fn env(pairs: &[(&str, &str)]) -> EnvSnapshot {
    EnvSnapshot::new(pairs.iter().map(|(k, v)| (k.to_string(), v.to_string())).collect())
}

fn token(expires_at: Option<u64>, refresh: Option<&str>) -> OAuthTokenSet {
    OAuthTokenSet {
        access_token: "acc".to_string(),
        refresh_token: refresh.map(|s| s.to_string()),
        expires_at,
        scopes: vec!["user:inference".to_string()],
    }
}

fn finished_key(a: &ResolveAction) -> Option<(String, CredentialSource)> {
    match a {
        ResolveAction::Finish(Ok((c, s))) => c.bearer_token().map(|t| (t.to_string(), *s)),
        _ => None,
    }
}

#[test]
fn legacy_bearer_token_of_each_variant() {
    assert_eq!(Credential::ApiKey("k".into()).bearer_token(), Some("k"));
    assert_eq!(Credential::OAuth(token(None, None)).bearer_token(), Some("acc"));
    assert_eq!(Credential::NoAuth.bearer_token(), None);
}

#[test]
fn expiry_of_credentials() {
    assert!(!Credential::ApiKey("k".into()).is_expired(u64::MAX));
    assert!(!Credential::NoAuth.is_expired(u64::MAX));
    let t = Credential::OAuth(token(Some(100), None));
    assert!(!t.is_expired(99));
    assert!(t.is_expired(100));
    assert!(t.is_expired(101));
    // Once expired, expired for good.
    for later in [100u64, 1000, u64::MAX] {
        assert!(t.is_expired(later));
    }
    // A refresh token keeps it usable.
    assert!(!Credential::OAuth(token(Some(100), Some("r"))).is_expired(1000));
    // No expiry time: never expired.
    assert!(!Credential::OAuth(token(None, None)).is_expired(u64::MAX));
    assert!(oauth_token_is_expired(&token(Some(5), Some("r")), 5));
    assert!(!oauth_token_is_expired(&token(None, Some("r")), 5));
}

#[test]
fn legacy_looks_like_api_key() {
    assert!(looks_like_api_key("sk-ant-1", "anthropic"));
    assert!(looks_like_api_key("sk-1", "openai"));
    assert!(looks_like_api_key("xai-1", "xai"));
    assert!(looks_like_api_key("0123456789abcdefghijk", "Anthropic"));
    assert!(!looks_like_api_key("0123456789 abcdefghijk", "Anthropic"));
}

#[test]
fn legacy_source_descriptions() {
    assert_eq!(CredentialSource::EnvVar.to_string(), "environment variable");
    assert_eq!(CredentialSource::SavedOAuth.to_string(), "saved login session");
    assert_eq!(CredentialSource::Interactive.to_string(), "interactive prompt");
    assert_eq!(CredentialSource::NotRequired.to_string(), "not required");
}

#[test]
fn legacy_for_kind() {
    let c = ProviderCredentialConfig::for_kind(ProviderKind::ClawApi);
    assert_eq!((c.provider_name, c.api_key_env, c.oauth_token_path, c.auth_optional), ("Anthropic", Some("ANTHROPIC_API_KEY"), Some("anthropic"), false));
    let c = ProviderCredentialConfig::for_kind(ProviderKind::OpenAi);
    assert_eq!((c.provider_name, c.api_key_env, c.oauth_token_path, c.auth_optional), ("OpenAI", Some("OPENAI_API_KEY"), Some("openai"), false));
    let c = ProviderCredentialConfig::for_kind(ProviderKind::Xai);
    assert_eq!((c.provider_name, c.api_key_env, c.oauth_token_path, c.auth_optional), ("xAI", Some("XAI_API_KEY"), None, false));
    for k in [ProviderKind::Ollama, ProviderKind::Generic] {
        let c = ProviderCredentialConfig::for_kind(k);
        assert_eq!((c.provider_name, c.api_key_env, c.oauth_token_path, c.auth_optional), ("local", None, None, true));
        assert_eq!(c.generic_key_env, "LLM_API_KEY");
    }
}

#[test]
fn optional_provider_finishes_at_once() {
    let c = ProviderCredentialConfig::for_kind(ProviderKind::Ollama);
    let a = resolve_credential(&c, &env(&[("LLM_AUTH_METHOD", "oauth")]), true, true);
    assert!(matches!(a, ResolveAction::Finish(Ok((Credential::NoAuth, CredentialSource::NotRequired)))));
}

#[test]
fn legacy_env_precedence() {
    let c = ProviderCredentialConfig::for_kind(ProviderKind::ClawApi);
    let a = resolve_credential(&c, &env(&[("LLM_API_KEY", "g"), ("ANTHROPIC_API_KEY", "own")]), true, true);
    assert_eq!(finished_key(&a), Some(("own".to_string(), CredentialSource::EnvVar)));
    let a = resolve_credential(&c, &env(&[("LLM_API_KEY", "g"), ("ANTHROPIC_API_KEY", "")]), true, true);
    assert_eq!(finished_key(&a), Some(("g".to_string(), CredentialSource::EnvVar)));
    let a = resolve_credential(&c, &env(&[]), true, true);
    assert!(matches!(a, ResolveAction::LoadSavedToken { scope: "anthropic", explicit: false }));
}

#[test]
fn legacy_apikey_method() {
    let c = ProviderCredentialConfig::for_kind(ProviderKind::OpenAi);
    let a = resolve_credential(&c, &env(&[("LLM_AUTH_METHOD", "apikey"), ("LLM_API_KEY", "g")]), true, true);
    assert_eq!(finished_key(&a), Some(("g".to_string(), CredentialSource::EnvVar)));
    match resolve_credential(&c, &env(&[("LLM_AUTH_METHOD", "apikey")]), true, true) {
        ResolveAction::Finish(Err(ApiError::MissingCredentials { provider, env_vars })) => {
            assert_eq!(provider, "OpenAI");
            assert_eq!(env_vars, vec!["OPENAI_API_KEY", "LLM_API_KEY"]);
        }
        _ => panic!("expected missing credentials"),
    }
}

#[test]
fn legacy_oauth_method() {
    let c = ProviderCredentialConfig::for_kind(ProviderKind::OpenAi);
    let a = resolve_credential(&c, &env(&[("LLM_AUTH_METHOD", "oauth"), ("OPENAI_API_KEY", "own")]), false, false);
    assert!(matches!(a, ResolveAction::LoadSavedToken { scope: "openai", explicit: true }));
    let x = ProviderCredentialConfig::for_kind(ProviderKind::Xai);
    match resolve_credential(&x, &env(&[("LLM_AUTH_METHOD", "oauth")]), false, false) {
        ResolveAction::Finish(Err(ApiError::Auth(m))) => assert_eq!(m, "xAI does not support OAuth login"),
        _ => panic!("expected unsupported"),
    }
    // An explicit request hands out even an expired token, and passes errors on.
    let a = after_saved_token(&c, true, Ok(token(Some(1), None)), 100, true, true);
    assert!(matches!(a, ResolveAction::Finish(Ok((Credential::OAuth(_), CredentialSource::SavedOAuth)))));
    let a = after_saved_token(&c, true, Err(ApiError::Auth("gone".into())), 100, true, true);
    assert!(matches!(a, ResolveAction::Finish(Err(ApiError::Auth(m))) if m == "gone"));
}

#[test]
fn legacy_saved_token_step() {
    let c = ProviderCredentialConfig::for_kind(ProviderKind::ClawApi);
    let fresh = after_saved_token(&c, false, Ok(token(Some(200), None)), 100, false, false);
    assert!(matches!(fresh, ResolveAction::Finish(Ok((Credential::OAuth(_), CredentialSource::SavedOAuth)))));
    let refreshable = after_saved_token(&c, false, Ok(token(Some(50), Some("r"))), 100, false, false);
    assert!(matches!(refreshable, ResolveAction::Finish(Ok((Credential::OAuth(_), CredentialSource::SavedOAuth)))));
    // Expired without refresh: prompt when interactive, error otherwise.
    let a = after_saved_token(&c, false, Ok(token(Some(50), None)), 100, true, true);
    assert!(matches!(a, ResolveAction::PromptForChoice));
    let a = after_saved_token(&c, false, Ok(token(Some(50), None)), 100, true, false);
    match a {
        ResolveAction::Finish(Err(ApiError::MissingCredentials { provider, env_vars })) => {
            assert_eq!(provider, "Anthropic");
            assert_eq!(env_vars, vec!["ANTHROPIC_API_KEY", "LLM_API_KEY"]);
        }
        _ => panic!("expected missing credentials"),
    }
    let a = after_saved_token(&c, false, Err(ApiError::Auth("none".into())), 100, false, true);
    assert!(matches!(a, ResolveAction::Finish(Err(ApiError::MissingCredentials { .. }))));
}

#[test]
fn legacy_no_oauth_provider_goes_to_prompt() {
    let x = ProviderCredentialConfig::for_kind(ProviderKind::Xai);
    assert!(matches!(resolve_credential(&x, &env(&[]), true, true), ResolveAction::PromptForChoice));
    match resolve_credential(&x, &env(&[]), false, true) {
        ResolveAction::Finish(Err(ApiError::MissingCredentials { provider, env_vars })) => {
            assert_eq!(provider, "xAI");
            assert_eq!(env_vars, vec!["XAI_API_KEY", "LLM_API_KEY"]);
        }
        _ => panic!("expected missing credentials"),
    }
    let custom = ProviderCredentialConfig { provider_name: "c", api_key_env: None, generic_key_env: "LLM_API_KEY", oauth_token_path: None, auth_optional: false };
    match resolve_credential(&custom, &env(&[]), false, false) {
        ResolveAction::Finish(Err(ApiError::MissingCredentials { env_vars, .. })) => {
            assert_eq!(env_vars, vec!["LLM_API_KEY", "LLM_API_KEY"]);
        }
        _ => panic!("expected missing credentials"),
    }
}

#[test]
fn interactive_choices() {
    let c = ProviderCredentialConfig::for_kind(ProviderKind::ClawApi);
    match after_choice(&c, " 1\n") {
        ResolveAction::RunOAuthLogin { scope, provider_name } => {
            assert_eq!(scope, "anthropic");
            assert_eq!(provider_name, "Anthropic");
        }
        _ => panic!("choice 1 must start the login"),
    }
    match after_choice(&c, "2\n") {
        ResolveAction::PromptForKey => {}
        _ => panic!("choice 2 must ask for a key"),
    }
}

#[test]
fn interactive_login_scope_defaults_to_generic() {
    let x = ProviderCredentialConfig::for_kind(ProviderKind::Xai);
    match after_choice(&x, "1") {
        ResolveAction::RunOAuthLogin { scope, provider_name } => {
            assert_eq!(scope, "generic");
            assert_eq!(provider_name, "xAI");
        }
        _ => panic!("choice 1 must start the login"),
    }
}

#[test]
fn interactive_pasted_key_is_taken() {
    let c = ProviderCredentialConfig::for_kind(ProviderKind::ClawApi);
    let pasted = after_choice(&c, "  pasted-key-0123456789-abcdef \n");
    assert_eq!(
        finished_key(&pasted),
        Some(("pasted-key-0123456789-abcdef".to_string(), CredentialSource::Interactive))
    );
}

#[test]
fn interactive_unrecognised_input() {
    let c = ProviderCredentialConfig::for_kind(ProviderKind::ClawApi);
    match after_choice(&c, "3") {
        ResolveAction::Finish(Err(ApiError::Auth(m))) => {
            assert!(m.starts_with("Unrecognised input. Run "), "message: {m}");
            assert!(m.ends_with(" to authenticate."), "message: {m}");
            assert!(m.contains("claw login"), "message: {m}");
        }
        _ => panic!("input 3 must be refused"),
    }
}

#[test]
fn pasted_key_and_login_outcomes() {
    let r = after_pasted_key("  key-1 \n");
    assert!(matches!(&r, Ok((Credential::ApiKey(k), CredentialSource::Interactive)) if k == "key-1"));
    match after_pasted_key("\n") {
        Err(ApiError::Auth(m)) => assert_eq!(m, "No key entered."),
        _ => panic!("expected no key"),
    }
    let r = after_login(Ok(token(Some(9), None)));
    assert!(matches!(&r, Ok((Credential::OAuth(t), CredentialSource::Interactive)) if t.access_token == "acc"));
    assert!(matches!(after_login(Err(ApiError::Auth("x".into()))), Err(ApiError::Auth(_))));
}
