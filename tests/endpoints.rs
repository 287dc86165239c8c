use mock_oidc::endpoints::{auth_get, discovery, index, keys, token, userinfo_get};
use mock_oidc::error::RequestError;
use mock_oidc::flow::GrantFlow;
use mock_oidc::server::ServerState;
use mock_oidc::urls::{base_url, issuer_url};

fn two_tenants() -> ServerState<&'static str> {
    match ServerState::new(vec![("alpha".to_string(), "A"), ("beta".to_string(), "B")]) {
        Ok(s) => s,
        Err(_) => panic!("distinct names must build"),
    }
}

#[test]
fn issuer_url_appends_tenant_name() {
    let u = issuer_url("http", "localhost:8080", "foo").unwrap();
    assert_eq!(u.as_str(), "http://localhost:8080/foo");
}

#[test]
fn issuer_url_percent_encodes_segment() {
    let u = issuer_url("http", "localhost:8080", "a b/c").unwrap();
    assert_eq!(u.as_str(), "http://localhost:8080/a%20b%2Fc");
}

#[test]
fn base_url_of_connection() {
    let u = base_url("https", "example.com").unwrap();
    assert_eq!(u.as_str(), "https://example.com/");
}

#[test]
fn malformed_host_is_invalid_base() {
    assert_eq!(base_url("http", "exa mple:99999").err(), Some(RequestError::InvalidBaseUrl));
    assert_eq!(issuer_url("http", "", "foo").err(), Some(RequestError::InvalidBaseUrl));
}

#[test]
fn discovery_documents_differ_only_in_tenant_segment() {
    let state = two_tenants();
    let (a, ta) = discovery(&state, "http", "localhost:8080", "alpha").unwrap();
    let (b, tb) = discovery(&state, "http", "localhost:8080", "beta").unwrap();
    assert_eq!(a.as_str(), "http://localhost:8080/alpha");
    assert_eq!(b.as_str(), "http://localhost:8080/beta");
    assert_eq!(*ta, "A");
    assert_eq!(*tb, "B");
}

#[test]
fn discovery_of_unknown_tenant_is_not_found() {
    let state = two_tenants();
    let r = discovery(&state, "http", "localhost:8080", "gamma");
    assert!(matches!(r, Err(RequestError::UnknownIssuer(ref n)) if n == "gamma"));
}

#[test]
fn index_names_the_tenant() {
    let state = two_tenants();
    assert_eq!(index(&state, "alpha"), Ok("Issuer: alpha".to_string()));
    assert_eq!(index(&state, "nope"), Err(RequestError::UnknownIssuer("nope".to_string())));
}

#[test]
fn keys_userinfo_and_auth_resolve_tenant() {
    let state = two_tenants();
    assert_eq!(keys(&state, "beta"), Ok(&"B"));
    assert_eq!(userinfo_get(&state, "alpha"), Ok(&"A"));
    assert_eq!(auth_get(&state, "alpha"), Ok((&"A", "Marvin".to_string())));
    assert_eq!(keys(&state, "x"), Err(RequestError::UnknownIssuer("x".to_string())));
    assert_eq!(userinfo_get(&state, "x"), Err(RequestError::UnknownIssuer("x".to_string())));
    assert_eq!(auth_get(&state, "x"), Err(RequestError::UnknownIssuer("x".to_string())));
}

#[test]
fn token_dispatches_on_grant_type() {
    let state = two_tenants();
    assert_eq!(token(&state, "alpha", Some("client_credentials")), Ok((&"A", GrantFlow::ClientCredentials)));
    assert_eq!(token(&state, "beta", Some("authorization_code")), Ok((&"B", GrantFlow::Generic)));
    assert_eq!(token(&state, "beta", None), Ok((&"B", GrantFlow::Generic)));
    assert_eq!(token(&state, "x", None), Err(RequestError::UnknownIssuer("x".to_string())));
}

#[test]
fn unknown_tenant_is_not_found_whatever_the_connection() {
    let state = two_tenants();
    let r = discovery(&state, "http", "bad host", "gamma");
    assert!(matches!(r, Err(RequestError::UnknownIssuer(ref n)) if n == "gamma"));
    let r = discovery(&state, "http", "bad host", "alpha");
    assert!(matches!(r, Err(RequestError::InvalidBaseUrl)));
}
