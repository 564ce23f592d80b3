use vstd::prelude::*;
use crate::config::ProviderConfig;
use crate::errors::AuthError;
use crate::request::{build_token_form, token_form_pairs};
use crate::session::Authorization;
use crate::strutil::{is_char_prefix, str_eq, str_starts_with};
use crate::urlenc::pairs_view;

verus! {

/// The decoded key/value pairs of a URL's query, as url::Url::parse and
/// Url::query_pairs decode them, in order; nothing when the string is not a
/// well-formed absolute URL.
pub uninterp spec fn query_pairs_of(url: Seq<char>) -> Option<Seq<(Seq<char>, Seq<char>)>>;

/// Relies on url::Url::parse and url::Url::query_pairs: percent-decodes the
/// query into its key/value pairs, in order; the result depends on the URL
/// string alone.
#[verifier::external_body]
fn url_query_pairs(url: &str) -> (r: Option<Vec<(String, String)>>)
    ensures
        (r matches Some(_) <==> query_pairs_of(url@) matches Some(_)),
        (r matches Some(v) ==> query_pairs_of(url@) == Some(pairs_view(v@))),
{
    match url::Url::parse(url) {
        Ok(u) => Some(u.query_pairs().map(|(k, v)| (k.into_owned(), v.into_owned())).collect()),
        Err(_) => None,
    }
}

/// The value of the first pair whose key is `key`, from position `i` on.
pub open spec fn lookup_query(qs: Seq<(Seq<char>, Seq<char>)>, key: Seq<char>, i: int) -> Option<
    Seq<char>,
>
    decreases qs.len() - i,
{
    if !(0 <= i < qs.len()) {
        None
    } else if qs[i].0 == key {
        Some(qs[i].1)
    } else {
        lookup_query(qs, key, i + 1)
    }
}

/// The code extractor's verdict on the final URL of the credential POST. A
/// URL off the expected callback signals rejected credentials: a failed login
/// re-renders the login page. The callback without a `code` parameter
/// signals an accepted login that issued no code, a distinct condition.
/// Otherwise the verdict is the authorization code.
pub open spec fn code_outcome(final_url: Seq<char>, redirect_uri: Seq<char>) -> Result<
    Seq<char>,
    AuthError,
> {
    if !is_char_prefix(redirect_uri, final_url) {
        Err(AuthError::InvalidCredentials)
    } else {
        match query_pairs_of(final_url) {
            None => Err(AuthError::AuthenticationFailureNoCode),
            Some(qs) => match lookup_query(qs, "code"@, 0) {
                None => Err(AuthError::AuthenticationFailureNoCode),
                Some(c) => Ok(c),
            },
        }
    }
}

fn find_query_value(pairs: &Vec<(String, String)>, key: &str) -> (r: Option<String>)
    ensures
        (match r {
            Some(v) => lookup_query(pairs_view(pairs@), key@, 0) == Some(v@),
            None => lookup_query(pairs_view(pairs@), key@, 0) is None,
        }),
{
    let mut i: usize = 0;
    while i < pairs.len()
        invariant
            i <= pairs@.len(),
            lookup_query(pairs_view(pairs@), key@, 0) == lookup_query(
                pairs_view(pairs@),
                key@,
                i as int,
            ),
        decreases pairs@.len() - i,
    {
        proof {
            assert(pairs_view(pairs@)[i as int] == (pairs@[i as int].0@, pairs@[i as int].1@));
        }
        if str_eq(pairs[i].0.as_str(), key) {
            return Some(pairs[i].1.clone());
        }
        i += 1;
    }
    None
}

/// Inspects the final URL the session resolved to after the credential POST
/// and recovers the authorization code (spec: `code_outcome`).
pub fn extract_code(cfg: &ProviderConfig, final_url: &str) -> (r: Result<String, AuthError>)
    ensures
        (match r {
            Ok(c) => code_outcome(final_url@, cfg.redirect_uri@) == Ok::<Seq<char>, AuthError>(c@),
            Err(e) => code_outcome(final_url@, cfg.redirect_uri@) == Err::<Seq<char>, AuthError>(
                e,
            ),
        }),
{
    if !str_starts_with(final_url, cfg.redirect_uri.as_str()) {
        return Err(AuthError::InvalidCredentials);
    }
    match url_query_pairs(final_url) {
        None => Err(AuthError::AuthenticationFailureNoCode),
        Some(pairs) => match find_query_value(&pairs, "code") {
            None => Err(AuthError::AuthenticationFailureNoCode),
            Some(c) => Ok(c),
        },
    }
}

/// What the credential POST came back with: a transport failure (an exceeded
/// redirect cap included), or the URL the session finally resolved to.
pub enum AuthResponseEvent {
    TransportFailed,
    Landed { final_url: String },
}

/// What the token POST came back with: a transport failure, or the HTTP
/// status with the response body.
pub enum TokenResponseEvent {
    TransportFailed,
    Received { status: u16, body: String },
}

/// What the token POST must send: the token endpoint, the exchange form, and
/// the value of the subscription-key header the gateway demands.
pub struct TokenRequest {
    pub url: String,
    pub form: Vec<(String, String)>,
    pub subscription_key: String,
}

/// The flow's verdict on the credential POST: a transport failure surfaces
/// as RequestFailed; otherwise the code extractor's verdict on the final URL.
pub open spec fn auth_response_outcome(ev: AuthResponseEvent, redirect_uri: Seq<char>) -> Result<
    Seq<char>,
    AuthError,
> {
    match ev {
        AuthResponseEvent::TransportFailed => Err(AuthError::RequestFailed),
        AuthResponseEvent::Landed { final_url } => code_outcome(final_url@, redirect_uri),
    }
}

/// Handles the credential POST's outcome: on a recovered code, the token
/// exchange to send next; otherwise the flow's terminal error
/// (spec: `auth_response_outcome`).
pub fn process_auth_response(cfg: &ProviderConfig, ev: &AuthResponseEvent) -> (r: Result<
    TokenRequest,
    AuthError,
>)
    ensures
        (match r {
            Ok(req) => {
                &&& auth_response_outcome(*ev, cfg.redirect_uri@) matches Ok(c) && pairs_view(
                    req.form@,
                ) == token_form_pairs(cfg.client_id@, cfg.resource@, c, cfg.redirect_uri@)
                &&& req.url@ == cfg.token_url@
                &&& req.subscription_key@ == cfg.subscription_key@
            },
            Err(e) => auth_response_outcome(*ev, cfg.redirect_uri@) == Err::<Seq<char>, AuthError>(
                e,
            ),
        }),
{
    match ev {
        AuthResponseEvent::TransportFailed => Err(AuthError::RequestFailed),
        AuthResponseEvent::Landed { final_url } => {
            match extract_code(cfg, final_url.as_str()) {
                Err(e) => Err(e),
                Ok(code) => Ok(
                    TokenRequest {
                        url: cfg.token_url.clone(),
                        form: build_token_form(cfg, code.as_str()),
                        subscription_key: cfg.subscription_key.clone(),
                    },
                ),
            }
        },
    }
}

/// Whether an HTTP status reports success.
pub open spec fn is_success_status(status: u16) -> bool {
    200 <= status < 300
}

/// What the token endpoint's response body holds under its top-level
/// `access_token` key, when it is a JSON object with a string there.
pub uninterp spec fn access_token_of(body: Seq<char>) -> Option<Seq<char>>;

/// Relies on serde_json::from_str, Value::get and Value::as_str: the string
/// under the top-level `access_token` key of a JSON object, if any; the
/// result depends on the body alone.
#[verifier::external_body]
fn parse_access_token(body: &str) -> (r: Option<String>)
    ensures
        (r matches Some(_) <==> access_token_of(body@) matches Some(_)),
        (r matches Some(t) ==> access_token_of(body@) == Some(t@)),
{
    match serde_json::from_str::<serde_json::Value>(body) {
        Ok(v) => v.get("access_token").and_then(|t| t.as_str()).map(|s| s.to_string()),
        Err(_) => None,
    }
}

/// The flow's verdict on a token response that arrived: a non-success status
/// means the provider rejected the exchange, whatever the body holds; a
/// success status whose body carries no access token is a malformed
/// response; otherwise the verdict is the access token.
pub open spec fn token_outcome(status: u16, body: Seq<char>) -> Result<Seq<char>, AuthError> {
    if !is_success_status(status) {
        Err(AuthError::AuthenticationFailureNoToken)
    } else {
        match access_token_of(body) {
            None => Err(AuthError::TokenDeserializationError),
            Some(t) => Ok(t),
        }
    }
}

/// The flow's verdict on the token POST: a transport failure surfaces as
/// RequestFailed; otherwise `token_outcome` on status and body.
pub open spec fn token_response_outcome(ev: TokenResponseEvent) -> Result<Seq<char>, AuthError> {
    match ev {
        TokenResponseEvent::TransportFailed => Err(AuthError::RequestFailed),
        TokenResponseEvent::Received { status, body } => token_outcome(status, body@),
    }
}

/// Handles the token POST's outcome and extracts the bearer token
/// (spec: `token_response_outcome`).
pub fn process_token_response(ev: &TokenResponseEvent) -> (r: Result<String, AuthError>)
    ensures
        (match r {
            Ok(t) => token_response_outcome(*ev) == Ok::<Seq<char>, AuthError>(t@),
            Err(e) => token_response_outcome(*ev) == Err::<Seq<char>, AuthError>(e),
        }),
{
    match ev {
        TokenResponseEvent::TransportFailed => Err(AuthError::RequestFailed),
        TokenResponseEvent::Received { status, body } => {
            if !(200 <= *status && *status < 300) {
                Err(AuthError::AuthenticationFailureNoToken)
            } else {
                match parse_access_token(body.as_str()) {
                    None => Err(AuthError::TokenDeserializationError),
                    Some(t) => Ok(t),
                }
            }
        },
    }
}

/// Handles the token POST's outcome and, on success, assembles the only
/// successful terminal state of the flow: the context owning the session and
/// holding the token endpoint's access token, unchanged.
pub fn finish_login(client: reqwest::Client, ev: &TokenResponseEvent) -> (r: Result<
    Authorization,
    AuthError,
>)
    ensures
        (match r {
            Ok(a) => token_response_outcome(*ev) == Ok::<Seq<char>, AuthError>(a.jwt@) && a.client
                == client,
            Err(e) => token_response_outcome(*ev) == Err::<Seq<char>, AuthError>(e),
        }),
{
    match process_token_response(ev) {
        Ok(jwt) => Ok(Authorization::new(client, jwt)),
        Err(e) => Err(e),
    }
}

} // verus!
