use vstd::prelude::*;
use crate::config::{redirect_allowed, REDIRECT_CAP};
use crate::errors::AuthError;
use crate::flow::{
    access_token_of, auth_response_outcome, code_outcome, is_success_status, lookup_query,
    query_pairs_of, token_outcome, token_response_outcome, AuthResponseEvent, TokenResponseEvent,
};
use crate::request::auth_query_pairs;
use crate::strutil::is_char_prefix;

verus! {

/// An accepted login and a well-formed exchange succeed end to end: when the
/// credential POST lands on the callback carrying a `code` parameter, and the
/// token endpoint answers a success status whose body carries an access
/// token, the flow's verdicts are exactly that code and that token.
pub proof fn lemma_accepted_login_yields_token(
    redirect_uri: Seq<char>,
    final_url: Seq<char>,
    qs: Seq<(Seq<char>, Seq<char>)>,
    code: Seq<char>,
    status: u16,
    body: Seq<char>,
    token: Seq<char>,
)
    requires
        is_char_prefix(redirect_uri, final_url),
        query_pairs_of(final_url) == Some(qs),
        lookup_query(qs, "code"@, 0) == Some(code),
        is_success_status(status),
        access_token_of(body) == Some(token),
    ensures
        code_outcome(final_url, redirect_uri) == Ok::<Seq<char>, AuthError>(code),
        token_outcome(status, body) == Ok::<Seq<char>, AuthError>(token),
{
}

/// Within one attempt, the `state` and the `nonce` parameters of the
/// authorization request carry the same per-attempt value: the provider
/// correlates the two. Freshness across attempts rests on the generator and
/// is not a provable fact here.
pub proof fn lemma_state_equals_nonce(
    client_id: Seq<char>,
    redirect_uri: Seq<char>,
    resource: Seq<char>,
    nonce: Seq<char>,
)
    ensures
        auth_query_pairs(client_id, redirect_uri, resource, nonce)[2] == ("state"@, nonce),
        auth_query_pairs(client_id, redirect_uri, resource, nonce)[6] == ("nonce"@, nonce),
        auth_query_pairs(client_id, redirect_uri, resource, nonce)[2].1 == auth_query_pairs(
            client_id,
            redirect_uri,
            resource,
            nonce,
        )[6].1,
{
}

/// A rejected login: when the provider re-serves the login page, so the
/// final URL lies off the callback, the verdict is InvalidCredentials —
/// never AuthenticationFailureNoCode — whatever query that page carries.
pub proof fn lemma_rejected_login_is_invalid_credentials(
    redirect_uri: Seq<char>,
    final_url: Seq<char>,
)
    requires
        !is_char_prefix(redirect_uri, final_url),
    ensures
        code_outcome(final_url, redirect_uri) == Err::<Seq<char>, AuthError>(
            AuthError::InvalidCredentials,
        ),
{
}

/// When the credential POST lands on the callback but its query has no
/// `code` parameter, the verdict is AuthenticationFailureNoCode: the
/// provider accepted the login yet issued no code.
pub proof fn lemma_callback_without_code_is_no_code(
    redirect_uri: Seq<char>,
    final_url: Seq<char>,
    qs: Seq<(Seq<char>, Seq<char>)>,
)
    requires
        is_char_prefix(redirect_uri, final_url),
        query_pairs_of(final_url) == Some(qs),
        lookup_query(qs, "code"@, 0) is None,
    ensures
        code_outcome(final_url, redirect_uri) == Err::<Seq<char>, AuthError>(
            AuthError::AuthenticationFailureNoCode,
        ),
{
}

/// A non-success status from the token endpoint yields
/// AuthenticationFailureNoToken, whatever the body holds.
pub proof fn lemma_failed_exchange_is_no_token(status: u16, body: Seq<char>)
    requires
        !is_success_status(status),
    ensures
        token_outcome(status, body) == Err::<Seq<char>, AuthError>(
            AuthError::AuthenticationFailureNoToken,
        ),
{
}

/// A success status whose body carries no access token yields
/// TokenDeserializationError, a condition distinct from a rejected exchange.
pub proof fn lemma_malformed_token_body_is_deserialization_error(status: u16, body: Seq<char>)
    requires
        is_success_status(status),
        access_token_of(body) is None,
    ensures
        token_outcome(status, body) == Err::<Seq<char>, AuthError>(
            AuthError::TokenDeserializationError,
        ),
{
}

/// A transport failure on either POST surfaces as RequestFailed, and the
/// session's policy refuses exactly a chain beyond the redirect cap, so an
/// exceeded cap reaches the flow as such a failure, never as a success.
pub proof fn lemma_transport_failure_is_request_failed(redirect_uri: Seq<char>)
    ensures
        auth_response_outcome(AuthResponseEvent::TransportFailed, redirect_uri) == Err::<
            Seq<char>,
            AuthError,
        >(AuthError::RequestFailed),
        token_response_outcome(TokenResponseEvent::TransportFailed) == Err::<
            Seq<char>,
            AuthError,
        >(AuthError::RequestFailed),
        forall|n: int| n > REDIRECT_CAP ==> !redirect_allowed(n),
{
}

} // verus!
