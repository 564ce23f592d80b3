use vstd::prelude::*;
use vstd::string::StringExecFns;

verus! {

/// Authorization endpoint of the institution's ADFS deployment.
pub const ADFS_OAUTH2_URL: &'static str = "https://vafs.nus.edu.sg/adfs/oauth2/authorize";

/// OAuth client identifier registered for this client.
pub const ADFS_CLIENT_ID: &'static str = "E10493A3B1024F14BDC7D0D8B9F649E9-234390";

/// Resource identifier the access token is requested for.
pub const ADFS_RESOURCE_TYPE: &'static str = "sg_edu_nus_oauth";

/// Pre-registered callback the provider redirects to after an accepted login.
pub const ADFS_REDIRECT_URI: &'static str = "https://luminus.nus.edu.sg/auth/callback";

/// Base of the downstream REST API.
pub const API_BASE_URL: &'static str = "https://luminus.nus.edu.sg/v2/api/";

/// Token endpoint: the code-for-token exchange lives under the API base.
pub const ADFS_TOKEN_URL: &'static str = "https://luminus.nus.edu.sg/v2/api/login/adfstoken";

/// Subscription key the API gateway demands on the token exchange and on
/// every downstream API call.
pub const OCM_APIM_SUBSCRIPTION_KEY: &'static str = "6963c200ca9440de8fa1eede730d8f7e";

/// How many redirects of one request the session follows before the request
/// fails as a transport error. A tunable constant, not a protocol fact.
pub const REDIRECT_CAP: usize = 5;

/// The fixed facts about one identity-provider deployment that the login flow
/// needs: the endpoints, the client identity, and the gateway's key.
pub struct ProviderConfig {
    pub auth_url: String,
    pub client_id: String,
    pub redirect_uri: String,
    pub resource: String,
    pub token_url: String,
    pub api_base_url: String,
    pub subscription_key: String,
}

impl ProviderConfig {
    /// The institutional deployment this client is registered with.
    pub fn nus() -> (r: ProviderConfig)
        ensures
            r.auth_url@ == ADFS_OAUTH2_URL@,
            r.client_id@ == ADFS_CLIENT_ID@,
            r.redirect_uri@ == ADFS_REDIRECT_URI@,
            r.resource@ == ADFS_RESOURCE_TYPE@,
            r.token_url@ == ADFS_TOKEN_URL@,
            r.api_base_url@ == API_BASE_URL@,
            r.subscription_key@ == OCM_APIM_SUBSCRIPTION_KEY@,
    {
        ProviderConfig {
            auth_url: String::from_str(ADFS_OAUTH2_URL),
            client_id: String::from_str(ADFS_CLIENT_ID),
            redirect_uri: String::from_str(ADFS_REDIRECT_URI),
            resource: String::from_str(ADFS_RESOURCE_TYPE),
            token_url: String::from_str(ADFS_TOKEN_URL),
            api_base_url: String::from_str(API_BASE_URL),
            subscription_key: String::from_str(OCM_APIM_SUBSCRIPTION_KEY),
        }
    }
}

/// Whether the session may follow one more redirect of a request: it may
/// while the chain so far is within the cap, and the request fails once a
/// sixth redirect arrives.
pub open spec fn redirect_allowed(previous: int) -> bool {
    previous <= REDIRECT_CAP
}

/// The redirect policy of the session: follow a redirect while the chain of
/// previous hops is within the cap, fail the request otherwise.
pub fn should_follow_redirect(previous: usize) -> (r: bool)
    ensures
        r == redirect_allowed(previous as int),
{
    previous <= REDIRECT_CAP
}

} // verus!
