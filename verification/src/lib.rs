//! A browser-less, form-based OAuth2-style authorization-code login against
//! an ADFS identity provider, yielding a bearer token for a downstream REST
//! API. The flow's logic — building the authorization request, judging the
//! redirect the credential POST lands on, recovering the authorization code,
//! judging the token exchange, and assembling the authorized context — is
//! verified here; the HTTP legs surround it as plain events.

pub mod config;
pub mod data;
pub mod errors;
pub mod flow;
pub mod laws;
pub mod nonce;
pub mod request;
pub mod session;
pub mod strutil;
pub mod urlenc;
