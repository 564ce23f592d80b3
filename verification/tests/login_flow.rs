use adfs_auth::config::{should_follow_redirect, ProviderConfig};
use adfs_auth::errors::AuthError;
use adfs_auth::flow::{
    extract_code, finish_login, process_auth_response, process_token_response, AuthResponseEvent,
    TokenResponseEvent,
};
use adfs_auth::request::prepare_login;

fn stub_config() -> ProviderConfig {
    ProviderConfig {
        auth_url: "https://idp.example/adfs/oauth2/authorize".to_string(),
        client_id: "client-1".to_string(),
        redirect_uri: "https://callback.example/auth/callback".to_string(),
        resource: "res-1".to_string(),
        token_url: "https://api.example/v2/api/login/adfstoken".to_string(),
        api_base_url: "https://api.example/v2/api/".to_string(),
        subscription_key: "key-1".to_string(),
    }
}

#[test]
fn valid_credentials_yield_the_token_endpoints_access_token() {
    // credentials ("alice","correct-pw"); the stub provider accepts them and
    // redirects to the callback with a code, the stub token endpoint answers
    // with an access token
    let cfg = stub_config();
    let login = prepare_login(&cfg, "alice", "correct-pw", "0011223344556677");
    assert!(login.url.contains("state=0011223344556677"));

    let landed = AuthResponseEvent::Landed {
        final_url: "https://callback.example/auth/callback?code=ABC123".to_string(),
    };
    let token_request = process_auth_response(&cfg, &landed).expect("the code is recovered");
    assert_eq!(token_request.url, cfg.token_url);
    assert_eq!(token_request.subscription_key, cfg.subscription_key);
    assert!(token_request
        .form
        .contains(&("code".to_string(), "ABC123".to_string())));

    let received = TokenResponseEvent::Received {
        status: 200,
        body: "{\"access_token\":\"tok-xyz\",\"token_type\":\"bearer\"}".to_string(),
    };
    let jwt = process_token_response(&received).expect("the token is parsed");
    assert_eq!(jwt, "tok-xyz");

    let context = finish_login(reqwest::Client::new(), &received).expect("the flow concludes");
    assert_eq!(context.jwt, "tok-xyz");
}

#[test]
fn rejected_credentials_yield_invalid_credentials() {
    // credentials ("alice","wrong-pw"); the stub provider re-renders the
    // login page instead of redirecting to the callback
    let cfg = stub_config();
    let rerendered = AuthResponseEvent::Landed {
        final_url: "https://idp.example/adfs/oauth2/authorize?sso=failed".to_string(),
    };
    let r = process_auth_response(&cfg, &rerendered);
    assert_eq!(r.err().unwrap(), AuthError::InvalidCredentials);
}

#[test]
fn callback_without_code_yields_no_code_failure() {
    let cfg = stub_config();
    let no_code = AuthResponseEvent::Landed {
        final_url: "https://callback.example/auth/callback?state=0011223344556677".to_string(),
    };
    let r = process_auth_response(&cfg, &no_code);
    assert_eq!(r.err().unwrap(), AuthError::AuthenticationFailureNoCode);
}

#[test]
fn callback_with_empty_query_yields_no_code_failure() {
    let cfg = stub_config();
    let bare = AuthResponseEvent::Landed {
        final_url: "https://callback.example/auth/callback".to_string(),
    };
    let r = process_auth_response(&cfg, &bare);
    assert_eq!(r.err().unwrap(), AuthError::AuthenticationFailureNoCode);
}

#[test]
fn non_success_status_yields_no_token_whatever_the_body() {
    let with_token_body = TokenResponseEvent::Received {
        status: 403,
        body: "{\"access_token\":\"tok-xyz\"}".to_string(),
    };
    let r = process_token_response(&with_token_body);
    assert_eq!(r.err().unwrap(), AuthError::AuthenticationFailureNoToken);
}

#[test]
fn success_status_with_malformed_body_yields_deserialization_error() {
    let missing_field = TokenResponseEvent::Received {
        status: 200,
        body: "{\"token_type\":\"bearer\"}".to_string(),
    };
    let r = process_token_response(&missing_field);
    assert_eq!(r.err().unwrap(), AuthError::TokenDeserializationError);

    let not_json = TokenResponseEvent::Received {
        status: 200,
        body: "<html>sign in</html>".to_string(),
    };
    let r = process_token_response(&not_json);
    assert_eq!(r.err().unwrap(), AuthError::TokenDeserializationError);
}

#[test]
fn transport_failures_yield_request_failed() {
    let cfg = stub_config();
    let r = process_auth_response(&cfg, &AuthResponseEvent::TransportFailed);
    assert_eq!(r.err().unwrap(), AuthError::RequestFailed);
    let r = process_token_response(&TokenResponseEvent::TransportFailed);
    assert_eq!(r.err().unwrap(), AuthError::RequestFailed);
}

#[test]
fn a_sixth_consecutive_redirect_is_refused() {
    // the first five hops of a redirect chain are followed; once six
    // responses have gone by, the policy fails the request, which the flow
    // surfaces as RequestFailed rather than a success
    for previous in 0..=5usize {
        assert!(should_follow_redirect(previous));
    }
    assert!(!should_follow_redirect(6));
}

#[test]
fn extract_code_decodes_the_code_parameter() {
    let cfg = stub_config();
    let code = extract_code(&cfg, "https://callback.example/auth/callback?code=A%2BB%20C")
        .expect("the code is recovered");
    assert_eq!(code, "A+B C");
}

#[test]
fn extract_code_takes_the_first_code_parameter() {
    let cfg = stub_config();
    let code = extract_code(
        &cfg,
        "https://callback.example/auth/callback?state=s&code=first&code=second",
    )
    .expect("the code is recovered");
    assert_eq!(code, "first");
}

#[test]
fn extract_code_rejects_a_url_off_the_callback() {
    let cfg = stub_config();
    let r = extract_code(&cfg, "https://callback.example/other?code=ABC123");
    assert_eq!(r.err().unwrap(), AuthError::InvalidCredentials);
}
