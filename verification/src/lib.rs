//! Credential resolution for language-model providers: where a credential is
//! looked for, in which order, and what is reported when none is found.
pub mod claw_provider;
pub mod credential;
pub mod credential_resolver;
pub mod environment;
pub mod error;
pub mod providers;
pub mod text;
