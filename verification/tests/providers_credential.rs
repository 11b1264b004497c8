use claw_credentials::environment::EnvSnapshot;
use claw_credentials::error::ApiError;
use claw_credentials::providers::credential::{looks_like_api_key, Credential, CredentialSource};
use claw_credentials::providers::credential_resolver::{
    load_saved_oauth, missing_credentials_error, read_prompted_key, resolve_credential_from_env,
    saved_token_file_name, saved_token_from_fields, ProviderCredentialConfig, SavedTokenFile,
    TokenFileFields,
};
use claw_credentials::providers::ProviderKind;

fn env(pairs: &[(&str, &str)]) -> EnvSnapshot {
    EnvSnapshot::new(pairs.iter().map(|(k, v)| (k.to_string(), v.to_string())).collect())
}

fn no_saved() -> Result<String, ApiError> {
    Err(ApiError::Auth("no saved OAuth token found for Anthropic".to_string()))
}

fn key_of(r: &Result<(Credential, CredentialSource), ApiError>) -> Option<(String, CredentialSource)> {
    match r {
        Ok((c, s)) => c.bearer_token().map(|t| (t.to_string(), *s)),
        Err(_) => None,
    }
}

#[test]
fn bearer_token_of_each_variant() {
    assert_eq!(Credential::ApiKey("k1".to_string()).bearer_token(), Some("k1"));
    assert_eq!(Credential::BearerToken("t1".to_string()).bearer_token(), Some("t1"));
    assert_eq!(Credential::NoAuth.bearer_token(), None);
}

#[test]
fn is_none_only_for_no_credential() {
    assert!(Credential::NoAuth.is_none());
    assert!(!Credential::ApiKey("k".to_string()).is_none());
    assert!(!Credential::BearerToken("t".to_string()).is_none());
    for c in [Credential::NoAuth, Credential::ApiKey("x".into()), Credential::BearerToken("y".into())] {
        assert_eq!(c.is_none(), c.bearer_token().is_none());
    }
}

#[test]
fn looks_like_api_key_by_provider() {
    assert!(looks_like_api_key("sk-ant-abc", "anthropic"));
    assert!(!looks_like_api_key("sk-abc", "anthropic"));
    assert!(looks_like_api_key("sk-abc", "openai"));
    assert!(!looks_like_api_key("pk-abc", "openai"));
    assert!(looks_like_api_key("xai-123", "xai"));
    assert!(!looks_like_api_key("sk-123", "xai"));
    // Other providers: more than 20 bytes and no space.
    assert!(looks_like_api_key("abcdefghijklmnopqrstu", "other"));
    assert!(!looks_like_api_key("abcdefghijklmnopqrst", "other"));
    assert!(!looks_like_api_key("abcdefghij klmnopqrstu", "other"));
    // Byte length, not character count: ten two-byte characters are 20 bytes.
    assert!(!looks_like_api_key("éééééééééé", "other"));
    assert!(looks_like_api_key("ééééééééééa", "other"));
    // The provider name is matched exactly.
    assert!(!looks_like_api_key("sk-ant-abc", "Anthropic"));
}

#[test]
fn anthropic_shaped_keys_are_openai_shaped() {
    for k in ["sk-ant-1", "sk-ant-", "sk-ant-xyz"] {
        assert!(looks_like_api_key(k, "anthropic"));
        assert!(looks_like_api_key(k, "openai"));
    }
}

#[test]
fn credential_source_descriptions() {
    assert_eq!(CredentialSource::EnvVar.to_string(), "environment variable");
    assert_eq!(CredentialSource::SavedOAuth.to_string(), "saved login session");
    assert_eq!(CredentialSource::Interactive.to_string(), "interactive prompt");
    assert_eq!(CredentialSource::NotRequired.to_string(), "not required");
}

#[test]
fn for_kind_configurations() {
    let a = ProviderCredentialConfig::for_kind(ProviderKind::Anthropic);
    assert_eq!(a.provider_name, "Anthropic");
    assert_eq!(a.api_key_env, Some("ANTHROPIC_API_KEY"));
    assert_eq!(a.oauth_env, None);
    assert!(!a.auth_optional);
    let o = ProviderCredentialConfig::for_kind(ProviderKind::OpenAi);
    assert_eq!(o.provider_name, "OpenAI");
    assert_eq!(o.api_key_env, Some("OPENAI_API_KEY"));
    assert_eq!(o.oauth_env, Some("OPENAI_OAUTH"));
    let x = ProviderCredentialConfig::for_kind(ProviderKind::Xai);
    assert_eq!(x.provider_name, "xAI");
    assert_eq!(x.api_key_env, Some("XAI_API_KEY"));
    for k in [ProviderKind::Ollama, ProviderKind::Generic] {
        let c = ProviderCredentialConfig::for_kind(k);
        assert_eq!(c.provider_name, "local");
        assert_eq!(c.api_key_env, None);
        assert!(c.auth_optional);
    }
    for k in [ProviderKind::Anthropic, ProviderKind::OpenAi, ProviderKind::Xai, ProviderKind::Ollama, ProviderKind::Generic] {
        let c = ProviderCredentialConfig::for_kind(k);
        assert_eq!(c.generic_key_env, "LLM_API_KEY");
        assert_eq!(c.auth_optional, c.api_key_env.is_none());
    }
}

#[test]
fn local_providers_need_no_credential() {
    let c = ProviderCredentialConfig::for_kind(ProviderKind::Ollama);
    let r = resolve_credential_from_env(&c, &env(&[("LLM_API_KEY", "zzz"), ("LLM_AUTH_METHOD", "apikey")]), no_saved());
    match r {
        Ok((cred, src)) => {
            assert!(cred.is_none());
            assert_eq!(src, CredentialSource::NotRequired);
        }
        Err(_) => panic!("local provider must resolve"),
    }
}

#[test]
fn optional_provider_takes_a_voluntary_key() {
    let c = ProviderCredentialConfig {
        provider_name: "protected",
        api_key_env: Some("OLLAMA_KEY"),
        generic_key_env: "LLM_API_KEY",
        oauth_env: None,
        auth_optional: true,
    };
    let r = resolve_credential_from_env(&c, &env(&[("OLLAMA_KEY", "ok1")]), no_saved());
    assert_eq!(key_of(&r), Some(("ok1".to_string(), CredentialSource::EnvVar)));
    let r = resolve_credential_from_env(&c, &env(&[("OLLAMA_KEY", "")]), no_saved());
    assert!(matches!(r, Ok((Credential::NoAuth, CredentialSource::NotRequired))));
}

#[test]
fn provider_key_takes_precedence() {
    let c = ProviderCredentialConfig::for_kind(ProviderKind::OpenAi);
    let e = env(&[
        ("LLM_API_KEY", "generic"),
        ("OPENAI_API_KEY", "own"),
        ("OPENCLAW_GATEWAY_TOKEN", "gw"),
        ("OPENAI_OAUTH", "oa"),
    ]);
    let r = resolve_credential_from_env(&c, &e, Ok("saved".to_string()));
    assert_eq!(key_of(&r), Some(("own".to_string(), CredentialSource::EnvVar)));
    assert!(matches!(r, Ok((Credential::ApiKey(_), _))));
}

#[test]
fn gateway_token_then_provider_oauth_then_generic() {
    let c = ProviderCredentialConfig::for_kind(ProviderKind::OpenAi);
    let r = resolve_credential_from_env(&c, &env(&[("OPENCLAW_GATEWAY_TOKEN", "gw"), ("OPENAI_OAUTH", "oa"), ("LLM_API_KEY", "g")]), no_saved());
    assert!(matches!(&r, Ok((Credential::BearerToken(t), CredentialSource::EnvVar)) if t == "gw"));
    let r = resolve_credential_from_env(&c, &env(&[("OPENAI_OAUTH", "oa"), ("LLM_API_KEY", "g")]), no_saved());
    assert!(matches!(&r, Ok((Credential::BearerToken(t), CredentialSource::EnvVar)) if t == "oa"));
    let r = resolve_credential_from_env(&c, &env(&[("LLM_API_KEY", "g")]), no_saved());
    assert!(matches!(&r, Ok((Credential::ApiKey(t), CredentialSource::EnvVar)) if t == "g"));
    // Anthropic has no OAuth variable of its own: OPENAI_OAUTH is not read.
    let a = ProviderCredentialConfig::for_kind(ProviderKind::Anthropic);
    let r = resolve_credential_from_env(&a, &env(&[("OPENAI_OAUTH", "oa")]), no_saved());
    assert!(matches!(r, Err(ApiError::MissingCredentials { .. })));
}

#[test]
fn saved_token_is_last_resort() {
    let c = ProviderCredentialConfig::for_kind(ProviderKind::Anthropic);
    let r = resolve_credential_from_env(&c, &env(&[]), Ok("saved".to_string()));
    assert!(matches!(&r, Ok((Credential::BearerToken(t), CredentialSource::SavedOAuth)) if t == "saved"));
}

#[test]
fn missing_credentials_when_nothing_is_set() {
    let cases: [(ProviderKind, &str, &[&str]); 3] = [
        (ProviderKind::Anthropic, "Anthropic", &["ANTHROPIC_API_KEY", "LLM_API_KEY"]),
        (ProviderKind::OpenAi, "OpenAI", &["OPENAI_API_KEY", "OPENAI_OAUTH", "LLM_API_KEY"]),
        (ProviderKind::Xai, "xAI", &["XAI_API_KEY", "LLM_API_KEY"]),
    ];
    for (kind, name, vars) in cases {
        let c = ProviderCredentialConfig::for_kind(kind);
        match resolve_credential_from_env(&c, &env(&[("OPENAI_API_KEY", ""), ("LLM_API_KEY", "")]), no_saved()) {
            Err(ApiError::MissingCredentials { provider, env_vars }) => {
                assert_eq!(provider, name);
                assert_eq!(env_vars, vars.to_vec());
            }
            _ => panic!("expected missing credentials"),
        }
    }
    let custom = ProviderCredentialConfig {
        provider_name: "custom",
        api_key_env: Some("CUSTOM_KEY"),
        generic_key_env: "LLM_API_KEY",
        oauth_env: None,
        auth_optional: false,
    };
    match missing_credentials_error(&custom) {
        ApiError::MissingCredentials { provider, env_vars } => {
            assert_eq!(provider, "custom");
            assert_eq!(env_vars, vec!["LLM_API_KEY"]);
        }
        _ => panic!("expected missing credentials"),
    }
}

#[test]
fn auth_method_apikey() {
    let c = ProviderCredentialConfig::for_kind(ProviderKind::Xai);
    let r = resolve_credential_from_env(&c, &env(&[("LLM_AUTH_METHOD", "apikey"), ("LLM_API_KEY", "g"), ("OPENCLAW_GATEWAY_TOKEN", "gw")]), Ok("saved".into()));
    assert!(matches!(&r, Ok((Credential::ApiKey(t), CredentialSource::EnvVar)) if t == "g"));
    let r = resolve_credential_from_env(&c, &env(&[("LLM_AUTH_METHOD", "apikey"), ("OPENCLAW_GATEWAY_TOKEN", "gw")]), Ok("saved".into()));
    assert!(matches!(r, Err(ApiError::MissingCredentials { .. })));
}

#[test]
fn auth_method_oauth() {
    let c = ProviderCredentialConfig::for_kind(ProviderKind::Anthropic);
    let e = env(&[("LLM_AUTH_METHOD", "oauth"), ("ANTHROPIC_API_KEY", "own")]);
    let r = resolve_credential_from_env(&c, &e, Ok("saved".into()));
    assert!(matches!(&r, Ok((Credential::BearerToken(t), CredentialSource::SavedOAuth)) if t == "saved"));
    let r = resolve_credential_from_env(&c, &e, no_saved());
    assert!(matches!(&r, Err(ApiError::Auth(m)) if m == "no saved OAuth token found for Anthropic"));
}

#[test]
fn unknown_or_empty_auth_method_uses_default_chain() {
    let c = ProviderCredentialConfig::for_kind(ProviderKind::Anthropic);
    for m in ["", "APIKEY", "other"] {
        let r = resolve_credential_from_env(&c, &env(&[("LLM_AUTH_METHOD", m), ("LLM_API_KEY", "g")]), no_saved());
        assert!(matches!(&r, Ok((Credential::ApiKey(t), CredentialSource::EnvVar)) if t == "g"));
    }
}

#[test]
fn empty_variable_counts_as_unset() {
    let c = ProviderCredentialConfig::for_kind(ProviderKind::Anthropic);
    let with_empty = env(&[("ANTHROPIC_API_KEY", ""), ("LLM_API_KEY", "g")]);
    let without = env(&[("LLM_API_KEY", "g")]);
    assert_eq!(
        key_of(&resolve_credential_from_env(&c, &with_empty, no_saved())),
        key_of(&resolve_credential_from_env(&c, &without, no_saved()))
    );
}

#[test]
fn first_binding_of_a_variable_counts() {
    let e = env(&[("A", "1"), ("A", "2")]);
    assert_eq!(e.get("A"), Some("1".to_string()));
    assert_eq!(e.get("B"), None);
    assert_eq!(env(&[("A", "")]).get_set("A"), None);
    assert_eq!(env(&[("A", "")]).get("A"), Some(String::new()));
}

#[test]
fn saved_token_file_names() {
    assert_eq!(saved_token_file_name("Anthropic"), "anthropic_oauth.json");
    assert_eq!(saved_token_file_name("My Provider X"), "my_provider_x_oauth.json");
    assert_eq!(saved_token_file_name("xAI"), "xai_oauth.json");
    assert!(!saved_token_file_name("A B  C").contains(' '));
}

fn fields(expires_at: Option<u64>, refresh_null: bool, access: Option<&str>) -> TokenFileFields {
    TokenFileFields { expires_at, refresh_token_is_null: refresh_null, access_token: access.map(|s| s.to_string()) }
}

#[test]
fn saved_token_fields_checked_against_time() {
    // Not expired yet.
    assert_eq!(saved_token_from_fields("P", &fields(Some(100), true, Some("a")), 100).ok(), Some("a".to_string()));
    // Expired with no refresh token.
    match saved_token_from_fields("P", &fields(Some(100), true, Some("a")), 101) {
        Err(ApiError::Auth(m)) => assert_eq!(m, "saved OAuth token for P has expired; run `claw login`"),
        _ => panic!("expected expiry"),
    }
    // Expired but refreshable.
    assert_eq!(saved_token_from_fields("P", &fields(Some(100), false, Some("a")), 5000).ok(), Some("a".to_string()));
    // No expiry at all.
    assert_eq!(saved_token_from_fields("P", &fields(None, true, Some("a")), u64::MAX).ok(), Some("a".to_string()));
    // No access token.
    match saved_token_from_fields("P", &fields(None, true, None), 0) {
        Err(ApiError::Auth(m)) => assert_eq!(m, "malformed OAuth token file for P"),
        _ => panic!("expected malformed"),
    }
}

#[test]
fn saved_token_valid_at_earlier_times() {
    let f = fields(Some(1000), true, Some("tok"));
    for now in [0u64, 500, 1000] {
        assert_eq!(saved_token_from_fields("P", &f, now).ok(), Some("tok".to_string()));
    }
}

#[test]
fn load_saved_oauth_outcomes() {
    match load_saved_oauth("Anthropic", SavedTokenFile::Missing, 0) {
        Err(ApiError::Auth(m)) => assert_eq!(m, "no saved OAuth token found for Anthropic"),
        _ => panic!("expected missing"),
    }
    let io = std::io::Error::new(std::io::ErrorKind::PermissionDenied, "denied");
    assert!(matches!(load_saved_oauth("Anthropic", SavedTokenFile::Unreadable(io), 0), Err(ApiError::Io(_))));
    assert!(matches!(load_saved_oauth("Anthropic", SavedTokenFile::Contents("{not json".into()), 0), Err(ApiError::Json(_))));
    let text = r#"{"access_token": "acc", "expires_at": 10, "refresh_token": null}"#;
    assert_eq!(load_saved_oauth("Anthropic", SavedTokenFile::Contents(text.into()), 5).ok(), Some("acc".to_string()));
    assert!(matches!(load_saved_oauth("Anthropic", SavedTokenFile::Contents(text.into()), 11), Err(ApiError::Auth(_))));
    let text = r#"{"access_token": "acc", "expires_at": 10, "refresh_token": "r"}"#;
    assert_eq!(load_saved_oauth("Anthropic", SavedTokenFile::Contents(text.into()), 11).ok(), Some("acc".to_string()));
    // A non-numeric expiry is not checked; a non-string access token is malformed.
    let text = r#"{"access_token": "acc", "expires_at": "soon"}"#;
    assert_eq!(load_saved_oauth("Anthropic", SavedTokenFile::Contents(text.into()), u64::MAX).ok(), Some("acc".to_string()));
    let text = r#"{"access_token": 5}"#;
    match load_saved_oauth("xAI", SavedTokenFile::Contents(text.into()), 0) {
        Err(ApiError::Auth(m)) => assert_eq!(m, "malformed OAuth token file for xAI"),
        _ => panic!("expected malformed"),
    }
    // Valid JSON that is not an object holds no fields.
    assert!(matches!(load_saved_oauth("xAI", SavedTokenFile::Contents("[1,2]".into()), 0), Err(ApiError::Auth(_))));
}

#[test]
fn prompted_key_is_trimmed() {
    assert_eq!(read_prompted_key("  sk-123 \n").ok(), Some("sk-123".to_string()));
    match read_prompted_key(" \t\n") {
        Err(ApiError::Auth(m)) => assert_eq!(m, "no key entered"),
        _ => panic!("expected no key"),
    }
}

#[test]
fn set_variable_resolves_without_the_saved_token() {
    let c = ProviderCredentialConfig::for_kind(ProviderKind::Xai);
    let e = env(&[("LLM_API_KEY", "g")]);
    let a = resolve_credential_from_env(&c, &e, Ok("saved".into()));
    let b = resolve_credential_from_env(&c, &e, no_saved());
    assert_eq!(key_of(&a), key_of(&b));
    assert_eq!(key_of(&a), Some(("g".to_string(), CredentialSource::EnvVar)));
}

#[test]
fn no_credential_exactly_when_not_required() {
    let envs = [env(&[]), env(&[("LLM_API_KEY", "g")]), env(&[("OPENCLAW_GATEWAY_TOKEN", "t")])];
    for kind in [ProviderKind::Anthropic, ProviderKind::OpenAi, ProviderKind::Xai, ProviderKind::Ollama, ProviderKind::Generic] {
        let c = ProviderCredentialConfig::for_kind(kind);
        for e in &envs {
            if let Ok((cred, src)) = resolve_credential_from_env(&c, e, Ok("s".into())) {
                assert_eq!(cred.is_none(), src == CredentialSource::NotRequired);
                if src == CredentialSource::EnvVar {
                    assert!(!cred.bearer_token().unwrap().is_empty());
                }
            }
        }
    }
}
