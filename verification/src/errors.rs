use vstd::prelude::*;

verus! {

/// The failure taxonomy of the login flow and the data layer. Every error is
/// terminal for the operation that produced it; the flow never retries.
#[derive(Clone, Copy, Debug, PartialEq, Eq, Structural)]
pub enum AuthError {
    /// The HTTP client or its TLS stack could not be constructed.
    ClientInitError,
    /// A transport-level failure on an HTTP call, including an exceeded
    /// redirect cap.
    RequestFailed,
    /// The identity provider rejected the login form and re-rendered the
    /// login page instead of redirecting to the callback.
    InvalidCredentials,
    /// The login was accepted but the callback carried no authorization code.
    AuthenticationFailureNoCode,
    /// The token endpoint rejected the code exchange.
    AuthenticationFailureNoToken,
    /// The token response body did not hold the expected token shape.
    TokenDeserializationError,
    /// A data-layer response envelope matched no expected shape.
    InvalidApiResponse,
}

} // verus!
