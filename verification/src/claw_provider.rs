//! OAuth token sets as issued by the Claw login flow.
use vstd::prelude::*;

verus! {

/// A live OAuth token set: the access token, an optional refresh token, the
/// expiry time (seconds since the Unix epoch) and the granted scopes.
#[derive(Debug, Clone)]
pub struct OAuthTokenSet {
    pub access_token: String,
    pub refresh_token: Option<String>,
    pub expires_at: Option<u64>,
    pub scopes: Vec<String>,
}

/// An OAuth token set with its strings taken as character sequences.
pub struct OAuthTokenSetView {
    pub access_token: Seq<char>,
    pub refresh_token: Option<Seq<char>>,
    pub expires_at: Option<u64>,
    pub scopes: Seq<Seq<char>>,
}

impl View for OAuthTokenSet {
    type V = OAuthTokenSetView;

    open spec fn view(&self) -> OAuthTokenSetView {
        OAuthTokenSetView {
            access_token: self.access_token@,
            refresh_token: match self.refresh_token {
                Some(t) => Some(t@),
                None => None,
            },
            expires_at: self.expires_at,
            scopes: self.scopes@.map_values(|s: String| s@),
        }
    }
}

/// A token set with an expiry time has expired once that time is reached.
pub open spec fn token_expired_at(token: OAuthTokenSetView, now: u64) -> bool {
    token.expires_at matches Some(e) && e <= now
}

/// True when `token` carries an expiry time and the time `now` (seconds since
/// the Unix epoch) has reached it.
pub fn oauth_token_is_expired(token: &OAuthTokenSet, now: u64) -> (r: bool)
    ensures
        r == token_expired_at(token@, now),
{
    match token.expires_at {
        Some(e) => e <= now,
        None => false,
    }
}

} // verus!
