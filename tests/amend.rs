use mock_oidc::amend::{amend_id_token, amend_value, has_access_token, Amended};
use mock_oidc::error::RequestError;

fn echo_issuer(u: &url::Url) -> Result<String, String> {
    Ok(format!("token-for:{}", u.as_str()))
}

fn refuse(_: &url::Url) -> Result<String, String> {
    Err("no key".to_string())
}

fn replaced(r: Result<Amended, RequestError>) -> serde_json::Value {
    match r {
        Ok(Amended::Replaced(v)) => v,
        Ok(Amended::Unchanged) => panic!("expected a replaced body, got it unchanged"),
        Err(e) => panic!("expected a replaced body, got {:?}", e),
    }
}

#[test]
fn absent_body_is_unchanged() {
    let r = amend_id_token(None, "http", "localhost:8080", "foo", echo_issuer);
    assert!(matches!(r, Ok(Amended::Unchanged)));
}

#[test]
fn empty_body_is_unchanged() {
    let r = amend_id_token(Some(""), "http", "localhost:8080", "foo", echo_issuer);
    assert!(matches!(r, Ok(Amended::Unchanged)));
}

#[test]
fn non_json_body_is_unchanged() {
    let r = amend_id_token(Some("access_token=abc"), "http", "localhost:8080", "foo", echo_issuer);
    assert!(matches!(r, Ok(Amended::Unchanged)));
}

#[test]
fn body_without_access_token_is_unchanged() {
    for body in ["{\"error\":\"invalid_grant\"}", "[1,2]", "{\"access_token\":5}", "\"x\""] {
        let r = amend_id_token(Some(body), "http", "localhost:8080", "foo", echo_issuer);
        assert!(matches!(r, Ok(Amended::Unchanged)), "{}", body);
    }
}

#[test]
fn token_response_gets_id_token_for_issuer() {
    let body = "{\"access_token\":\"abc\",\"token_type\":\"bearer\"}";
    let v = replaced(amend_id_token(Some(body), "http", "localhost:8080", "foo", echo_issuer));
    assert_eq!(v["access_token"], "abc");
    assert_eq!(v["token_type"], "bearer");
    assert_eq!(v["id_token"], "token-for:http://localhost:8080/foo");
}

#[test]
fn earlier_id_token_is_overwritten() {
    let body = "{\"access_token\":\"abc\",\"id_token\":\"old\"}";
    let v = replaced(amend_id_token(Some(body), "https", "idp.example", "beta", echo_issuer));
    assert_eq!(v["id_token"], "token-for:https://idp.example/beta");
}

#[test]
fn minting_failure_is_generic_error() {
    let body = "{\"access_token\":\"abc\"}";
    let r = amend_id_token(Some(body), "http", "localhost:8080", "foo", refuse);
    assert!(matches!(r, Err(RequestError::Generic(ref m)) if m == "no key"));
}

#[test]
fn malformed_base_fails_amendment() {
    let body = "{\"access_token\":\"abc\"}";
    let r = amend_id_token(Some(body), "http", "bad host", "foo", echo_issuer);
    assert!(matches!(r, Err(RequestError::InvalidBaseUrl)));
}

#[test]
fn amend_value_mints_for_given_issuer() {
    let issuer = url::Url::parse("http://localhost:8080/alpha").unwrap();
    let parsed: serde_json::Value = serde_json::from_str("{\"access_token\":\"t\"}").unwrap();
    let v = replaced(amend_value(parsed, &issuer, echo_issuer));
    assert_eq!(v["access_token"], "t");
    assert_eq!(v["id_token"], "token-for:http://localhost:8080/alpha");
    let other: serde_json::Value = serde_json::from_str("{\"scope\":\"openid\"}").unwrap();
    assert!(matches!(amend_value(other, &issuer, echo_issuer), Ok(Amended::Unchanged)));
    let failing: serde_json::Value = serde_json::from_str("{\"access_token\":\"t\"}").unwrap();
    assert!(matches!(amend_value(failing, &issuer, refuse), Err(RequestError::Generic(ref m)) if m == "no key"));
}

#[test]
fn access_token_must_be_a_string_member() {
    let yes: serde_json::Value = serde_json::from_str("{\"access_token\":\"t\"}").unwrap();
    let number: serde_json::Value = serde_json::from_str("{\"access_token\":1}").unwrap();
    let nested: serde_json::Value = serde_json::from_str("{\"a\":{\"access_token\":\"t\"}}").unwrap();
    let array: serde_json::Value = serde_json::from_str("[\"access_token\"]").unwrap();
    assert!(has_access_token(&yes));
    assert!(!has_access_token(&number));
    assert!(!has_access_token(&nested));
    assert!(!has_access_token(&array));
}

#[test]
fn malformed_base_ignored_without_access_token() {
    let r = amend_id_token(Some("{\"error\":\"x\"}"), "http", "bad host", "foo", echo_issuer);
    assert!(matches!(r, Ok(Amended::Unchanged)));
}

#[test]
fn other_members_are_kept_whatever_their_type() {
    let body = "{\"access_token\":\"abc\",\"expires_in\":3600,\"extra\":{\"a\":[1,2]},\"scope\":null}";
    let v = replaced(amend_id_token(Some(body), "http", "localhost:8080", "foo", echo_issuer));
    assert_eq!(v["expires_in"], 3600);
    assert_eq!(v["extra"]["a"][1], 2);
    assert!(v["scope"].is_null());
    assert_eq!(v.as_object().unwrap().len(), 5);
}

#[test]
fn second_amendment_only_replaces_id_token() {
    let issuer = url::Url::parse("http://localhost:8080/foo").unwrap();
    let first: serde_json::Value = serde_json::from_str("{\"access_token\":\"abc\",\"expires_in\":1}").unwrap();
    let v1 = replaced(amend_value(first, &issuer, echo_issuer));
    let v2 = replaced(amend_value(v1.clone(), &issuer, echo_issuer));
    assert_eq!(v1, v2);
}
