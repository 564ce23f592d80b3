use adfs_auth::config::OCM_APIM_SUBSCRIPTION_KEY;
use adfs_auth::data::{
    announcements_path, select_announcements, select_modules, Announcement, ApiData, Module,
};
use adfs_auth::errors::AuthError;
use adfs_auth::session::{full_api_url, Authorization, HttpMethod};

fn module(id: &str, term: &str) -> Module {
    Module { id: id.to_string(), name: format!("module {}", id), term: term.to_string() }
}

#[test]
fn all_modules_come_back_without_a_term_filter() {
    let ms = vec![module("m1", "2110"), module("m2", "2020")];
    let r = select_modules(ApiData::Modules(ms.clone()), None).unwrap();
    assert_eq!(r, ms);
}

#[test]
fn a_term_filter_keeps_only_that_terms_modules() {
    let ms = vec![module("m1", "2110"), module("m2", "2020"), module("m3", "2110")];
    let r = select_modules(ApiData::Modules(ms), Some("2110")).unwrap();
    assert_eq!(r, vec![module("m1", "2110"), module("m3", "2110")]);
}

#[test]
fn an_empty_payload_yields_no_modules() {
    let r = select_modules(ApiData::Empty(Vec::new()), Some("2110")).unwrap();
    assert_eq!(r, Vec::<Module>::new());
}

#[test]
fn a_non_empty_untyped_payload_is_an_invalid_api_response() {
    // the empty fallback holds only for a structurally empty collection; an
    // untyped payload with entries matches no expected shape
    let stray = vec!["unexpected".to_string()];
    let r = select_modules(ApiData::Empty(stray.clone()), None);
    assert_eq!(r.err().unwrap(), AuthError::InvalidApiResponse);
    let r = select_announcements(ApiData::Empty(stray));
    assert_eq!(r.err().unwrap(), AuthError::InvalidApiResponse);
}

#[test]
fn a_mismatched_payload_is_an_invalid_api_response() {
    let a = Announcement { title: "t".to_string(), description: "d".to_string() };
    let r = select_modules(ApiData::Announcements(vec![a]), None);
    assert_eq!(r.err().unwrap(), AuthError::InvalidApiResponse);

    let r = select_announcements(ApiData::Modules(vec![module("m1", "2110")]));
    assert_eq!(r.err().unwrap(), AuthError::InvalidApiResponse);
}

#[test]
fn announcements_come_back_as_sent() {
    let a = Announcement { title: "exam".to_string(), description: "friday".to_string() };
    let r = select_announcements(ApiData::Announcements(vec![a.clone()])).unwrap();
    assert_eq!(r, vec![a]);
    let r = select_announcements(ApiData::Empty(Vec::new())).unwrap();
    assert_eq!(r, Vec::<Announcement>::new());
}

#[test]
fn announcement_paths_name_the_archive_state_and_module() {
    assert_eq!(
        announcements_path("m-42", false),
        "/announcement/NonArchived/m-42?sortby=displayFrom%20ASC"
    );
    assert_eq!(
        announcements_path("m-42", true),
        "/announcement/Archived/m-42?sortby=displayFrom%20ASC"
    );
}

#[test]
fn api_paths_resolve_against_the_api_base() {
    // a relative path lands under the versioned base
    assert_eq!(
        full_api_url("login/adfstoken").unwrap(),
        "https://luminus.nus.edu.sg/v2/api/login/adfstoken"
    );
    // an absolute path replaces the base's path, as URL resolution has it
    assert_eq!(
        full_api_url("/user/Profile").unwrap(),
        "https://luminus.nus.edu.sg/user/Profile"
    );
}

#[test]
fn authenticated_requests_carry_the_three_headers() {
    let authorization = Authorization::new(reqwest::Client::new(), "tok-xyz".to_string());
    let req = authorization.api(HttpMethod::Get, "/module", None).unwrap();
    assert_eq!(req.authorization, "Bearer tok-xyz");
    assert_eq!(req.subscription_key, OCM_APIM_SUBSCRIPTION_KEY);
    assert_eq!(req.content_type, "application/json");
    assert_eq!(req.url, "https://luminus.nus.edu.sg/module");
    assert_eq!(req.method, HttpMethod::Get);
    assert!(req.form.is_none());
}
