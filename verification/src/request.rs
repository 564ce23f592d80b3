use vstd::prelude::*;
use vstd::string::StringExecFns;
use crate::config::ProviderConfig;
use crate::strutil::chars_of_ascii;
use crate::urlenc::{encode_query, encoded_query, pairs_view};

verus! {

/// The seven query parameters of an authorization request. `state` and
/// `nonce` carry the same per-attempt value: the provider correlates them.
pub open spec fn auth_query_pairs(
    client_id: Seq<char>,
    redirect_uri: Seq<char>,
    resource: Seq<char>,
    nonce: Seq<char>,
) -> Seq<(Seq<char>, Seq<char>)> {
    seq![
        ("response_type"@, "code"@),
        ("client_id"@, client_id),
        ("state"@, nonce),
        ("redirect_uri"@, redirect_uri),
        ("scope"@, Seq::<char>::empty()),
        ("resource"@, resource),
        ("nonce"@, nonce),
    ]
}

/// The fields of the credential POST.
pub open spec fn login_form_pairs(username: Seq<char>, password: Seq<char>) -> Seq<
    (Seq<char>, Seq<char>),
> {
    seq![
        ("UserName"@, username),
        ("Password"@, password),
        ("AuthMethod"@, "FormsAuthentication"@),
    ]
}

/// The fields of the code-for-token exchange POST.
pub open spec fn token_form_pairs(
    client_id: Seq<char>,
    resource: Seq<char>,
    code: Seq<char>,
    redirect_uri: Seq<char>,
) -> Seq<(Seq<char>, Seq<char>)> {
    seq![
        ("grant_type"@, "authorization_code"@),
        ("client_id"@, client_id),
        ("resource"@, resource),
        ("code"@, code),
        ("redirect_uri"@, redirect_uri),
    ]
}

/// The authorization-endpoint URL of one login attempt: the configured
/// endpoint with the seven OAuth query parameters appended.
pub open spec fn spec_auth_url(cfg: ProviderConfig, nonce: Seq<char>) -> Seq<char> {
    cfg.auth_url@ + "?"@ + chars_of_ascii(
        encoded_query(auth_query_pairs(cfg.client_id@, cfg.redirect_uri@, cfg.resource@, nonce)),
    )
}

/// Builds the authorization-request URL of one attempt, carrying
/// `response_type=code`, the client id, the per-attempt `state`, the
/// callback, an empty scope, the resource, and a `nonce` equal to `state`.
pub fn build_auth_url(cfg: &ProviderConfig, nonce: &str) -> (r: String)
    ensures
        r@ == spec_auth_url(*cfg, nonce@),
{
    let mut pairs: Vec<(String, String)> = Vec::new();
    pairs.push((String::from_str("response_type"), String::from_str("code")));
    pairs.push((String::from_str("client_id"), cfg.client_id.clone()));
    pairs.push((String::from_str("state"), nonce.to_owned()));
    pairs.push((String::from_str("redirect_uri"), cfg.redirect_uri.clone()));
    pairs.push((String::from_str("scope"), String::new()));
    pairs.push((String::from_str("resource"), cfg.resource.clone()));
    pairs.push((String::from_str("nonce"), nonce.to_owned()));
    proof {
        assert(pairs_view(pairs@) =~= auth_query_pairs(
            cfg.client_id@,
            cfg.redirect_uri@,
            cfg.resource@,
            nonce@,
        ));
    }
    let q = encode_query(&pairs);
    let mut url = cfg.auth_url.clone();
    url.append("?");
    url.append(q.as_str());
    url
}

/// Builds the login form of the credential POST: the user's name and
/// password, submitted with the provider's forms-authentication method.
pub fn build_auth_form(username: &str, password: &str) -> (r: Vec<(String, String)>)
    ensures
        pairs_view(r@) == login_form_pairs(username@, password@),
{
    let mut form: Vec<(String, String)> = Vec::new();
    form.push((String::from_str("UserName"), username.to_owned()));
    form.push((String::from_str("Password"), password.to_owned()));
    form.push((String::from_str("AuthMethod"), String::from_str("FormsAuthentication")));
    proof {
        assert(pairs_view(form@) =~= login_form_pairs(username@, password@));
    }
    form
}

/// Builds the form of the code-for-token exchange: the recovered code with
/// the client identity, resource, and callback it was issued for.
pub fn build_token_form(cfg: &ProviderConfig, code: &str) -> (r: Vec<(String, String)>)
    ensures
        pairs_view(r@) == token_form_pairs(cfg.client_id@, cfg.resource@, code@, cfg.redirect_uri@),
{
    let mut form: Vec<(String, String)> = Vec::new();
    form.push((String::from_str("grant_type"), String::from_str("authorization_code")));
    form.push((String::from_str("client_id"), cfg.client_id.clone()));
    form.push((String::from_str("resource"), cfg.resource.clone()));
    form.push((String::from_str("code"), code.to_owned()));
    form.push((String::from_str("redirect_uri"), cfg.redirect_uri.clone()));
    proof {
        assert(pairs_view(form@) =~= token_form_pairs(
            cfg.client_id@,
            cfg.resource@,
            code@,
            cfg.redirect_uri@,
        ));
    }
    form
}

/// What the credential POST must send: the authorization URL and the form.
pub struct LoginRequest {
    pub url: String,
    pub form: Vec<(String, String)>,
}

/// Builds the credential POST of one login attempt from the configuration,
/// the caller's credentials, and a fresh per-attempt nonce.
pub fn prepare_login(cfg: &ProviderConfig, username: &str, password: &str, nonce: &str) -> (r:
    LoginRequest)
    ensures
        r.url@ == spec_auth_url(*cfg, nonce@),
        pairs_view(r.form@) == login_form_pairs(username@, password@),
{
    LoginRequest { url: build_auth_url(cfg, nonce), form: build_auth_form(username, password) }
}

} // verus!
