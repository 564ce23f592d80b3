use adfs_auth::config::ProviderConfig;
use adfs_auth::nonce::{generate_random_bytes, to_hex};
use adfs_auth::request::{build_auth_form, build_auth_url, build_token_form, prepare_login};
use adfs_auth::urlenc::encode_query;

fn test_config() -> ProviderConfig {
    ProviderConfig {
        auth_url: "https://idp.example/adfs/oauth2/authorize".to_string(),
        client_id: "client-1".to_string(),
        redirect_uri: "https://callback.example/auth/callback".to_string(),
        resource: "res-1".to_string(),
        token_url: "https://api.example/v2/api/login/adfstoken".to_string(),
        api_base_url: "https://api.example/v2/api/".to_string(),
        subscription_key: "key-1".to_string(),
    }
}

#[test]
fn auth_form_holds_credentials_and_method() {
    let form = build_auth_form("alice", "correct-pw");
    assert_eq!(
        form,
        vec![
            ("UserName".to_string(), "alice".to_string()),
            ("Password".to_string(), "correct-pw".to_string()),
            ("AuthMethod".to_string(), "FormsAuthentication".to_string()),
        ]
    );
}

#[test]
fn token_form_holds_code_and_client_identity() {
    let cfg = test_config();
    let form = build_token_form(&cfg, "ABC123");
    assert_eq!(
        form,
        vec![
            ("grant_type".to_string(), "authorization_code".to_string()),
            ("client_id".to_string(), "client-1".to_string()),
            ("resource".to_string(), "res-1".to_string()),
            ("code".to_string(), "ABC123".to_string()),
            ("redirect_uri".to_string(), "https://callback.example/auth/callback".to_string()),
        ]
    );
}

#[test]
fn auth_url_is_the_endpoint_with_seven_encoded_parameters() {
    let cfg = test_config();
    let url = build_auth_url(&cfg, "deadbeef");
    assert_eq!(
        url,
        "https://idp.example/adfs/oauth2/authorize?response_type=code&client_id=client-1\
         &state=deadbeef&redirect_uri=https%3A%2F%2Fcallback.example%2Fauth%2Fcallback\
         &scope=&resource=res-1&nonce=deadbeef"
    );
}

#[test]
fn auth_url_decodes_back_to_its_parameters() {
    let cfg = test_config();
    let nonce = "0123456789abcdef";
    let url = build_auth_url(&cfg, nonce);
    let parsed = url::Url::parse(&url).expect("the built URL parses");
    let pairs: Vec<(String, String)> = parsed
        .query_pairs()
        .map(|(k, v)| (k.into_owned(), v.into_owned()))
        .collect();
    assert_eq!(
        pairs,
        vec![
            ("response_type".to_string(), "code".to_string()),
            ("client_id".to_string(), cfg.client_id.clone()),
            ("state".to_string(), nonce.to_string()),
            ("redirect_uri".to_string(), cfg.redirect_uri.clone()),
            ("scope".to_string(), "".to_string()),
            ("resource".to_string(), cfg.resource.clone()),
            ("nonce".to_string(), nonce.to_string()),
        ]
    );
    // within one attempt, state and nonce carry the same value
    assert_eq!(pairs[2].1, pairs[6].1);
}

#[test]
fn prepare_login_carries_url_and_form() {
    let cfg = test_config();
    let req = prepare_login(&cfg, "alice", "correct-pw", "deadbeef");
    assert!(req.url.starts_with("https://idp.example/adfs/oauth2/authorize?"));
    assert_eq!(req.form[0].1, "alice");
    assert_eq!(req.form[1].1, "correct-pw");
}

#[test]
fn encode_query_escapes_spaces_and_separators() {
    let pairs = vec![
        ("a b".to_string(), "c&d".to_string()),
        ("k=ey".to_string(), "v/alue".to_string()),
    ];
    assert_eq!(encode_query(&pairs), "a+b=c%26d&k%3Dey=v%2Falue");
}

#[test]
fn to_hex_renders_lowercase_pairs() {
    assert_eq!(to_hex(&vec![0x00u8, 0xff]), "00ff");
    assert_eq!(to_hex(&vec![0xdeu8, 0xad, 0xbe, 0xef]), "deadbeef");
}

#[test]
fn random_bytes_render_as_32_lowercase_hex_digits() {
    let nonce = generate_random_bytes(16);
    assert_eq!(nonce.len(), 32);
    assert!(nonce.chars().all(|c| c.is_ascii_hexdigit() && !c.is_ascii_uppercase()));
}

#[test]
fn two_attempts_use_two_different_nonces() {
    let first = generate_random_bytes(16);
    let second = generate_random_bytes(16);
    assert_ne!(first, second);
}

#[test]
fn nus_config_matches_the_registered_deployment() {
    let cfg = ProviderConfig::nus();
    assert_eq!(cfg.auth_url, "https://vafs.nus.edu.sg/adfs/oauth2/authorize");
    assert_eq!(cfg.redirect_uri, "https://luminus.nus.edu.sg/auth/callback");
    assert_eq!(cfg.token_url, "https://luminus.nus.edu.sg/v2/api/login/adfstoken");
}
