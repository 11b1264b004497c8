//! The credential that a request is sent with, where an OAuth credential
//! carries its whole token set.
use vstd::prelude::*;

use crate::claw_provider::{oauth_token_is_expired, token_expired_at, OAuthTokenSet, OAuthTokenSetView};
use crate::providers::credential::api_key_shaped;
use vstd::string::StringExecFns;

verus! {

/// A resolved credential — either a bearer/API key or a live OAuth token.
/// The rest of the codebase only ever sees this type; it never needs to know
/// whether the user configured an API key or went through an OAuth flow.
#[derive(Debug, Clone)]
pub enum Credential {
    /// A static API key or personal access token.
    ApiKey(String),
    /// A live OAuth token set (access + optional refresh).
    OAuth(OAuthTokenSet),
    /// No credential required (e.g. Ollama running locally).
    NoAuth,
}

/// A credential with its strings taken as character sequences.
pub enum CredentialView {
    ApiKey(Seq<char>),
    OAuth(OAuthTokenSetView),
    NoAuth,
}

impl CredentialView {
    /// The token that goes into the Authorization header, if any.
    pub open spec fn token(self) -> Option<Seq<char>> {
        match self {
            CredentialView::ApiKey(k) => Some(k),
            CredentialView::OAuth(t) => Some(t.access_token),
            CredentialView::NoAuth => None,
        }
    }

    /// An OAuth credential whose token has expired at `now` and cannot be
    /// refreshed.
    pub open spec fn expired_at(self, now: u64) -> bool {
        match self {
            CredentialView::OAuth(t) => token_expired_at(t, now) && t.refresh_token is None,
            _ => false,
        }
    }
}

impl View for Credential {
    type V = CredentialView;

    open spec fn view(&self) -> CredentialView {
        match self {
            Credential::ApiKey(k) => CredentialView::ApiKey(k@),
            Credential::OAuth(t) => CredentialView::OAuth(t@),
            Credential::NoAuth => CredentialView::NoAuth,
        }
    }
}

impl Credential {
    /// Returns the value to use as a Bearer token in Authorization headers,
    /// or None if no auth header should be sent.
    pub fn bearer_token(&self) -> (r: Option<&str>)
        ensures
            r matches Some(t) ==> self@.token() == Some(t@),
            r is None ==> self@.token() is None,
    {
        match self {
            Credential::ApiKey(key) => Some(key.as_str()),
            Credential::OAuth(token) => Some(token.access_token.as_str()),
            Credential::NoAuth => None,
        }
    }

    /// True if the credential is an OAuth token that has expired at the time
    /// `now` (seconds since the Unix epoch) and cannot be refreshed. Callers
    /// should re-run the login flow.
    pub fn is_expired(&self, now: u64) -> (r: bool)
        ensures
            r == self@.expired_at(now),
    {
        match self {
            Credential::OAuth(token) => oauth_token_is_expired(token, now)
                && token.refresh_token.is_none(),
            _ => false,
        }
    }
}

/// Describes how an API key looks — used to distinguish a pasted API key
/// from a mistakenly entered OAuth token or password in the interactive prompt.
pub fn looks_like_api_key(s: &str, provider: &str) -> (r: bool)
    ensures
        r == api_key_shaped(s@, provider@),
{
    crate::providers::credential::looks_like_api_key(s, provider)
}

/// Human-readable credential source, for diagnostic output only.
#[derive(Debug, Clone, Copy, PartialEq, Eq, Structural)]
pub enum CredentialSource {
    EnvVar,
    SavedOAuth,
    Interactive,
    NotRequired,
}

/// The words that describe a credential source.
pub open spec fn source_description(s: CredentialSource) -> Seq<char> {
    match s {
        CredentialSource::EnvVar => "environment variable"@,
        CredentialSource::SavedOAuth => "saved login session"@,
        CredentialSource::Interactive => "interactive prompt"@,
        CredentialSource::NotRequired => "not required"@,
    }
}

impl CredentialSource {
    /// The human-readable description of this source.
    pub fn to_string(&self) -> (r: String)
        ensures
            r@ == source_description(*self),
    {
        let s = match self {
            CredentialSource::EnvVar => "environment variable",
            CredentialSource::SavedOAuth => "saved login session",
            CredentialSource::Interactive => "interactive prompt",
            CredentialSource::NotRequired => "not required",
        };
        String::from_str(s)
    }
}

} // verus!

verus! {

/// Only an OAuth credential can be expired, so an expired credential still
/// has a bearer token to offer.
pub proof fn lemma_expired_credential_is_oauth(c: CredentialView, now: u64)
    requires
        c.expired_at(now),
    ensures
        c matches CredentialView::OAuth(t),
        c.token() is Some,
{
}

/// Once expired, a credential stays expired at every later time.
pub proof fn lemma_expiry_is_permanent(c: CredentialView, now: u64, later: u64)
    requires
        c.expired_at(now),
        now <= later,
    ensures
        c.expired_at(later),
{
}

} // verus!

verus! {

/// The Authorization header carries an API key as it is, and for an OAuth
/// credential exactly its access token, whatever its refresh token, expiry
/// or scopes; no credential sends no header.
pub proof fn lemma_bearer_token_is_access_token(t: OAuthTokenSetView, k: Seq<char>)
    ensures
        CredentialView::OAuth(t).token() == Some(t.access_token),
        CredentialView::ApiKey(k).token() == Some(k),
        CredentialView::NoAuth.token() is None,
{
}

/// Two OAuth credentials with the same access token send the same header.
pub proof fn lemma_bearer_token_ignores_refresh_token(t1: OAuthTokenSetView, t2: OAuthTokenSetView)
    requires
        t1.access_token == t2.access_token,
    ensures
        CredentialView::OAuth(t1).token() == CredentialView::OAuth(t2).token(),
{
}

/// A credential is expired at `now` exactly when it is an OAuth credential
/// whose expiry time is at or before `now` and which has no refresh token.
pub proof fn lemma_expired_exactly_when(c: CredentialView, now: u64)
    ensures
        c.expired_at(now) <==> (c matches CredentialView::OAuth(t) && (t.expires_at matches Some(
            e,
        ) && e <= now) && t.refresh_token is None),
{
}

/// The words for each credential source.
pub proof fn lemma_source_descriptions()
    ensures
        source_description(CredentialSource::EnvVar) == "environment variable"@,
        source_description(CredentialSource::SavedOAuth) == "saved login session"@,
        source_description(CredentialSource::Interactive) == "interactive prompt"@,
        source_description(CredentialSource::NotRequired) == "not required"@,
{
}

} // verus!
