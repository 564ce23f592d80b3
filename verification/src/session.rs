use vstd::prelude::*;
use vstd::string::StringExecFns;
use crate::config::{API_BASE_URL, OCM_APIM_SUBSCRIPTION_KEY};

verus! {

/// The HTTP session of one login attempt and of the authenticated calls
/// after it: a reqwest client that the surrounding program configures with a
/// cookie store and the bounded redirect policy of `should_follow_redirect`.
/// Opaque here; what came over it reaches the flow as plain events.
#[verifier::external_type_specification]
#[verifier::external_body]
pub struct ExClient(reqwest::Client);

/// What url::Url::join resolves a path to against a base, serialized;
/// nothing when base or result is not a well-formed URL.
pub uninterp spec fn joined_url(base: Seq<char>, path: Seq<char>) -> Option<Seq<char>>;

/// Relies on url::Url::parse and url::Url::join: resolves `path` against
/// `base` per the URL standard and serializes the result; the result depends
/// on the two arguments alone.
#[verifier::external_body]
fn join_url(base: &str, path: &str) -> (r: Option<String>)
    ensures
        (r matches Some(_) <==> joined_url(base@, path@) matches Some(_)),
        (r matches Some(u) ==> joined_url(base@, path@) == Some(u@)),
{
    match url::Url::parse(base) {
        Ok(b) => match b.join(path) {
            Ok(u) => Some(String::from(u)),
            Err(_) => None,
        },
        Err(_) => None,
    }
}

/// The URL of one API operation: its path resolved against the API base.
/// Nothing when the path does not resolve, which a well-formed static
/// configuration never produces.
pub fn full_api_url(path: &str) -> (r: Option<String>)
    ensures
        (r matches Some(_) <==> joined_url(API_BASE_URL@, path@) matches Some(_)),
        (r matches Some(u) ==> joined_url(API_BASE_URL@, path@) == Some(u@)),
{
    join_url(API_BASE_URL, path)
}

/// The immutable outcome of a successful login: the bearer token and the
/// session it was obtained with. Created only when the whole flow succeeded;
/// the token is never changed afterwards, and the context is the exclusive
/// owner of the session.
pub struct Authorization {
    pub jwt: String,
    pub client: reqwest::Client,
}

/// The HTTP method of an authenticated API request.
#[derive(Clone, Copy, Debug, PartialEq, Eq, Structural)]
pub enum HttpMethod {
    Get,
    Post,
}

/// One authenticated API request, ready to send: the resolved URL, the three
/// headers every API call carries, and an optional form body.
pub struct ApiRequest {
    pub method: HttpMethod,
    pub url: String,
    pub authorization: String,
    pub subscription_key: String,
    pub content_type: String,
    pub form: Option<Vec<(String, String)>>,
}

impl Authorization {
    /// Assembles the context from a completed exchange: the only successful
    /// terminal state of the login flow.
    pub fn new(client: reqwest::Client, jwt: String) -> (r: Authorization)
        ensures
            r.jwt == jwt,
            r.client == client,
    {
        Authorization { jwt, client }
    }

    /// Describes one authenticated request: the path resolved against the
    /// API base, a bearer-token header, the gateway's subscription key, and
    /// a JSON content type. Nothing when the path does not resolve.
    pub fn api(&self, method: HttpMethod, path: &str, form: Option<Vec<(String, String)>>) -> (r:
        Option<ApiRequest>)
        ensures
            (r matches Some(req) ==> {
                &&& joined_url(API_BASE_URL@, path@) == Some(req.url@)
                &&& req.authorization@ == "Bearer "@ + self.jwt@
                &&& req.subscription_key@ == OCM_APIM_SUBSCRIPTION_KEY@
                &&& req.content_type@ == "application/json"@
                &&& req.form == form
                &&& req.method == method
            }),
            (r matches Some(_) <==> joined_url(API_BASE_URL@, path@) matches Some(_)),
    {
        match full_api_url(path) {
            Some(url) => {
                let mut authorization = String::from_str("Bearer ");
                authorization.append(self.jwt.as_str());
                Some(
                    ApiRequest {
                        method,
                        url,
                        authorization,
                        subscription_key: String::from_str(OCM_APIM_SUBSCRIPTION_KEY),
                        content_type: String::from_str("application/json"),
                        form,
                    },
                )
            },
            None => None,
        }
    }
}

} // verus!
