use cargo_validate::error::ValidateError;
use cargo_validate::registry::{
    contains_text, crate_url, on_crate_response, on_owners_response, owners_url, present_texts, CrateStep,
    RegistryLookup,
};

#[test]
fn registry_urls() {
    assert_eq!(crate_url("foo"), "https://crates.io/api/v1/crates/foo");
    assert_eq!(owners_url("foo"), "https://crates.io/api/v1/crates/foo/owner_user");
}

#[test]
fn not_found_ends_lookup_whatever_the_body() {
    assert_eq!(on_crate_response(404, "", "0.1.0").unwrap(), CrateStep::NotFound);
    assert_eq!(on_crate_response(404, "{\"errors\":[]}", "0.1.0").unwrap(), CrateStep::NotFound);
    assert_eq!(on_crate_response(404, "{\"versions\":[{\"num\":\"0.1.0\"}]}", "0.1.0").unwrap(), CrateStep::NotFound);
    let l = RegistryLookup::not_found();
    assert!(!l.crate_exists);
    assert!(!l.version_exists);
    assert!(l.owners.is_empty());
}

#[test]
fn version_found_in_versions_array() {
    let body = "{\"crate\":{},\"versions\":[{\"num\":\"0.2.0\"},{\"num\":\"0.1.0\",\"yanked\":false}]}";
    assert_eq!(on_crate_response(200, body, "0.1.0").unwrap(), CrateStep::FetchOwners { version_exists: true });
}

#[test]
fn version_absent_from_versions_array() {
    let body = "{\"versions\":[{\"num\":\"0.2.0\"},{\"id\":3}]}";
    assert_eq!(on_crate_response(200, body, "0.1.0").unwrap(), CrateStep::FetchOwners { version_exists: false });
    let empty = "{\"versions\":[]}";
    assert_eq!(on_crate_response(200, empty, "0.1.0").unwrap(), CrateStep::FetchOwners { version_exists: false });
}

#[test]
fn malformed_crate_response() {
    assert_eq!(on_crate_response(200, "{\"crate\":{}}", "0.1.0").unwrap_err(), ValidateError::MalformedResponse);
    assert_eq!(on_crate_response(200, "{\"versions\":3}", "0.1.0").unwrap_err(), ValidateError::MalformedResponse);
    assert_eq!(on_crate_response(200, "not json", "0.1.0").unwrap_err(), ValidateError::MalformedResponse);
}

#[test]
fn crate_response_error_statuses() {
    assert_eq!(on_crate_response(403, "", "0.1.0").unwrap_err(), ValidateError::PermissionDenied);
    assert_eq!(on_crate_response(429, "", "0.1.0").unwrap_err(), ValidateError::RateLimited);
    assert_eq!(on_crate_response(500, "", "0.1.0").unwrap_err(), ValidateError::UnexpectedStatus(500));
    assert_eq!(on_crate_response(201, "{\"versions\":[]}", "0.1.0").unwrap_err(), ValidateError::UnexpectedStatus(201));
}

#[test]
fn owners_response_lists_logins() {
    let body = "{\"users\":[{\"login\":\"alice\",\"id\":1},{\"id\":2},{\"login\":\"bob\"}]}";
    let l = on_owners_response(200, body, true).unwrap();
    assert!(l.crate_exists);
    assert!(l.version_exists);
    assert_eq!(l.owners, vec!["alice".to_string(), "bob".to_string()]);
    let l = on_owners_response(204, "{\"users\":[]}", false).unwrap();
    assert!(l.crate_exists);
    assert!(!l.version_exists);
    assert!(l.owners.is_empty());
}

#[test]
fn owners_response_errors() {
    assert_eq!(on_owners_response(404, "{\"users\":[]}", false).unwrap_err(), ValidateError::OwnersStatus(404));
    assert_eq!(on_owners_response(199, "", false).unwrap_err(), ValidateError::OwnersStatus(199));
    assert_eq!(on_owners_response(300, "", false).unwrap_err(), ValidateError::OwnersStatus(300));
    assert_eq!(on_owners_response(200, "{\"owners\":[]}", false).unwrap_err(), ValidateError::MalformedResponse);
    assert_eq!(on_owners_response(200, "[", false).unwrap_err(), ValidateError::MalformedResponse);
}

#[test]
fn member_helpers() {
    let items = vec![None, Some("a".to_string()), Some("b".to_string()), None];
    assert!(contains_text(&items, "b"));
    assert!(!contains_text(&items, "c"));
    assert!(!contains_text(&Vec::new(), "a"));
    assert_eq!(present_texts(&items), vec!["a".to_string(), "b".to_string()]);
    assert!(present_texts(&vec![None, None]).is_empty());
}
