//! Errors of credential resolution.
use vstd::prelude::*;

verus! {

/// An I/O failure, carried through unchanged.
#[verifier::external_type_specification]
#[verifier::external_body]
pub struct ExIoError(std::io::Error);

/// A JSON parse failure from `serde_json`, carried through unchanged.
#[verifier::external_type_specification]
#[verifier::external_body]
pub struct ExJsonError(serde_json::Error);

/// Errors that credential resolution reports.
#[derive(Debug)]
pub enum ApiError {
    /// No credential was found; `env_vars` names the variables that would
    /// have supplied one.
    MissingCredentials { provider: &'static str, env_vars: Vec<&'static str> },
    /// An authentication problem, described in words.
    Auth(String),
    /// Reading a credential from disk or from the terminal failed.
    Io(std::io::Error),
    /// A saved token file is not valid JSON.
    Json(serde_json::Error),
}

/// What an `ApiError` says, with its strings taken as character sequences.
pub enum ApiErrorView {
    MissingCredentials { provider: Seq<char>, env_vars: Seq<Seq<char>> },
    Auth(Seq<char>),
    Io(std::io::Error),
    Json(serde_json::Error),
}

/// The character sequences of a list of string slices.
pub open spec fn strs_view(v: Seq<&'static str>) -> Seq<Seq<char>> {
    v.map_values(|s: &'static str| s@)
}

impl View for ApiError {
    type V = ApiErrorView;

    open spec fn view(&self) -> ApiErrorView {
        match self {
            ApiError::MissingCredentials { provider, env_vars } => ApiErrorView::MissingCredentials {
                provider: provider@,
                env_vars: strs_view(env_vars@),
            },
            ApiError::Auth(msg) => ApiErrorView::Auth(msg@),
            ApiError::Io(e) => ApiErrorView::Io(*e),
            ApiError::Json(e) => ApiErrorView::Json(*e),
        }
    }
}

impl ApiError {
    /// The error for a provider for which no credential was found.
    pub fn missing_credentials(provider: &'static str, env_vars: Vec<&'static str>) -> (r: Self)
        ensures
            r@ == (ApiErrorView::MissingCredentials {
                provider: provider@,
                env_vars: strs_view(env_vars@),
            }),
    {
        ApiError::MissingCredentials { provider, env_vars }
    }
}

} // verus!
