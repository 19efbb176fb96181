//! The request builder: value semantics, cloning, and authentication.

use osauth::catalog::EndpointFilters;
use osauth::client::{AuthenticatedClient, Method, RequestBody, RequestConfig};
use osauth::error::ErrorKind;
use osauth::identity::{Password, SubjectHeader};

const TOKEN_BODY: &str = r#"{
  "token": {
    "expires_at": "2030-01-01T00:00:00Z",
    "catalog": [
      {
        "type": "compute",
        "endpoints": [
          {"interface": "public", "region": "east", "url": "http://east/"},
          {"interface": "public", "region": "west", "url": "http://west/"}
        ]
      }
    ]
  }
}"#;

fn sample_client() -> AuthenticatedClient {
    let id = Password::new("http://127.0.0.1:5000/", "u", "p", "Default").unwrap();
    AuthenticatedClient::new(reqwest::Client::new(), id)
}

fn authenticated_client() -> AuthenticatedClient {
    let client = sample_client();
    let header = SubjectHeader::Text("secret".to_string());
    client.apply_token_response(&header, TOKEN_BODY).unwrap();
    client
}

#[test]
fn test_builder_starts_empty() {
    let client = sample_client();
    let b = client.request(Method::Get, "http://example/".to_string());
    assert_eq!(b.inner.method, Method::Get);
    assert_eq!(b.inner.url, "http://example/");
    assert!(b.inner.headers.is_empty());
    assert!(b.inner.query.is_empty());
    assert!(matches!(b.inner.body, RequestBody::Empty));
    assert_eq!(b.inner.timeout_ms, None);
}

#[test]
fn test_builder_calls_return_new_values() {
    let client = sample_client();
    let b = client
        .request(Method::Post, "http://example/".to_string())
        .header("accept", "application/json")
        .json(r#"{"a": 1}"#)
        .timeout(30000)
        .query(vec![("limit".to_string(), "10".to_string())]);
    assert_eq!(
        b.inner.headers,
        vec![("accept".to_string(), "application/json".to_string())]
    );
    assert!(matches!(b.inner.body, RequestBody::Json(ref s) if s == r#"{"a": 1}"#));
    assert_eq!(b.inner.timeout_ms, Some(30000));
    assert_eq!(
        b.inner.query,
        vec![("limit".to_string(), "10".to_string())]
    );
}

#[test]
fn test_headers_appended_in_order() {
    let client = sample_client();
    let b = client
        .request(Method::Get, "http://example/".to_string())
        .header("a", "1")
        .headers(vec![
            ("b".to_string(), "2".to_string()),
            ("c".to_string(), "3".to_string()),
        ]);
    assert_eq!(
        b.inner.headers,
        vec![
            ("a".to_string(), "1".to_string()),
            ("b".to_string(), "2".to_string()),
            ("c".to_string(), "3".to_string()),
        ]
    );
}

#[test]
fn test_clone_and_modify_query_leaves_original() {
    let client = sample_client();
    let original = client
        .request(Method::Get, "http://example/".to_string())
        .query(vec![("page".to_string(), "1".to_string())]);
    let clone = original.try_clone().unwrap();
    let modified = clone.query(vec![("marker".to_string(), "abc".to_string())]);
    assert_eq!(
        modified.inner.query,
        vec![
            ("page".to_string(), "1".to_string()),
            ("marker".to_string(), "abc".to_string()),
        ]
    );
    assert_eq!(
        original.inner.query,
        vec![("page".to_string(), "1".to_string())]
    );
}

#[test]
fn test_streaming_body_cannot_be_cloned() {
    let client = sample_client();
    let b = client
        .request(Method::Put, "http://example/".to_string())
        .body_stream();
    assert!(b.try_clone().is_none());
    let b2 = client
        .request(Method::Put, "http://example/".to_string())
        .body(vec![1u8, 2, 3]);
    assert!(b2.try_clone().is_some());
}

#[test]
fn test_authenticate_attaches_token_header() {
    let client = authenticated_client();
    let config = RequestConfig::new(Method::Get, "http://example/".to_string());
    let authed = client.authenticate(config).0.unwrap();
    assert_eq!(
        authed.headers,
        vec![("x-auth-token".to_string(), "secret".to_string())]
    );
}

#[test]
fn test_authenticate_without_credential_fails() {
    let client = sample_client();
    let config = RequestConfig::new(Method::Get, "http://example/".to_string());
    let err = client.authenticate(config).0.unwrap_err();
    assert_eq!(err.kind(), ErrorKind::AuthenticationFailed);
}

#[test]
fn test_client_get_endpoint_with_filters() {
    let client = authenticated_client();
    let url = client
        .get_endpoint("compute", &EndpointFilters::default())
        .0
        .unwrap();
    assert_eq!(url, "http://east/");
    let filters = EndpointFilters {
        interface: "public".to_string(),
        region: Some("west".to_string()),
    };
    let url = client.get_endpoint("compute", &filters).0.unwrap();
    assert_eq!(url, "http://west/");
}

#[test]
fn test_default_filters_ask_for_public() {
    let filters = EndpointFilters::default();
    assert_eq!(filters.interface, "public");
    assert_eq!(filters.region, None);
}

#[test]
fn test_password_request_attaches_token() {
    let id = Password::new("http://127.0.0.1:5000/", "u", "p", "Default").unwrap();
    let header = SubjectHeader::Text("secret".to_string());
    id.apply_token_response(&header, TOKEN_BODY).unwrap();
    let config = id.request(Method::Get, "http://example/".to_string()).0.unwrap();
    assert_eq!(config.method, Method::Get);
    assert_eq!(config.url, "http://example/");
    assert_eq!(
        config.headers,
        vec![("x-auth-token".to_string(), "secret".to_string())]
    );
    let bare = Password::new("http://127.0.0.1:5000/", "u", "p", "Default").unwrap();
    let err = bare.request(Method::Get, "http://example/".to_string()).0.unwrap_err();
    assert_eq!(err.kind(), ErrorKind::AuthenticationFailed);
}

#[test]
fn test_client_clones_share_credentials() {
    let client = sample_client();
    let duplicate = client.clone();
    let config = RequestConfig::new(Method::Get, "http://example/".to_string());
    assert!(duplicate.authenticate(config).0.is_err());
    let header = SubjectHeader::Text("secret".to_string());
    client.apply_token_response(&header, TOKEN_BODY).unwrap();
    let config = RequestConfig::new(Method::Get, "http://example/".to_string());
    let authed = duplicate.authenticate(config).0.unwrap();
    assert_eq!(
        authed.headers,
        vec![("x-auth-token".to_string(), "secret".to_string())]
    );
}

#[test]
fn test_builder_sees_later_refresh() {
    let client = sample_client();
    let b = client.request(Method::Get, "http://example/".to_string());
    assert!(b.client().authenticate(RequestConfig::new(Method::Get, "http://example/".to_string())).0.is_err());
    let header = SubjectHeader::Text("secret".to_string());
    client.apply_token_response(&header, TOKEN_BODY).unwrap();
    let authed = b
        .client()
        .authenticate(RequestConfig::new(Method::Get, "http://example/".to_string()))
        .0
        .unwrap();
    assert_eq!(
        authed.headers,
        vec![("x-auth-token".to_string(), "secret".to_string())]
    );
}

#[test]
fn test_set_auth_type_replaces_identity() {
    let mut client = authenticated_client();
    let other = Password::new("http://other:5000/", "u2", "p2", "Default").unwrap();
    client.set_auth_type(other);
    assert_eq!(client.auth_type().user_name(), "u2");
    let config = RequestConfig::new(Method::Get, "http://example/".to_string());
    let err = client.authenticate(config).0.unwrap_err();
    assert_eq!(err.kind(), ErrorKind::AuthenticationFailed);
}
