//! Credential refresh: the validity window, the token response, the shared
//! cache the response fills, and the sharing across duplicates.

use osauth::cache::{Token, TokenCache};
use osauth::catalog::CatalogRecord;
use osauth::error::ErrorKind;
use osauth::identity::{token_from_response, Password, RefreshAction, SubjectHeader};

const TOKEN_BODY: &str = r#"{
  "token": {
    "expires_at": "2030-01-01T00:00:00Z",
    "catalog": [
      {
        "type": "compute",
        "endpoints": [
          {"interface": "public", "region": "east", "url": "http://1.2.3.4:8774/"}
        ]
      }
    ]
  }
}"#;

const EXPIRES_2030: i64 = 1893456000;

fn fresh_password() -> Password {
    Password::new("http://127.0.0.1:5000/", "u", "p", "Default").unwrap()
}

#[test]
fn test_token_from_response_parses_everything() {
    let header = SubjectHeader::Text("secret-token".to_string());
    let token = token_from_response(&header, TOKEN_BODY).unwrap();
    assert_eq!(token.value, "secret-token");
    assert_eq!(token.expires_at, EXPIRES_2030);
    assert_eq!(token.catalog.len(), 1);
    assert_eq!(token.catalog[0].service_type, "compute");
    assert_eq!(token.catalog[0].endpoints.len(), 1);
    assert_eq!(token.catalog[0].endpoints[0].interface, "public");
    assert_eq!(token.catalog[0].endpoints[0].region, Some("east".to_string()));
    assert_eq!(token.catalog[0].endpoints[0].url, "http://1.2.3.4:8774/");
}

#[test]
fn test_missing_subject_header() {
    let err = token_from_response(&SubjectHeader::Missing, TOKEN_BODY).err().unwrap();
    assert_eq!(err.kind(), ErrorKind::InvalidResponse);
    assert_eq!(err.message(), "Missing X-Subject-Token header");
}

#[test]
fn test_invalid_subject_header() {
    let err = token_from_response(&SubjectHeader::NotText, TOKEN_BODY).err().unwrap();
    assert_eq!(err.kind(), ErrorKind::InvalidResponse);
    assert_eq!(err.message(), "Invalid X-Subject-Token header");
}

#[test]
fn test_malformed_body_is_invalid_response() {
    let header = SubjectHeader::Text("t".to_string());
    for body in [
        "not json at all",
        "{}",
        r#"{"token": {}}"#,
        r#"{"token": {"expires_at": "not a date", "catalog": []}}"#,
        r#"{"token": {"expires_at": "2030-01-01T00:00:00Z"}}"#,
        r#"{"token": {"expires_at": "2030-01-01T00:00:00Z", "catalog": [{"endpoints": []}]}}"#,
        r#"{"token": {"expires_at": "2030-01-01T00:00:00Z", "catalog": [{"type": "x", "endpoints": [{"interface": "public"}]}]}}"#,
    ] {
        let err = token_from_response(&header, body).err().unwrap();
        assert_eq!(err.kind(), ErrorKind::InvalidResponse);
        assert_eq!(err.message(), "malformed token response");
    }
}

#[test]
fn test_refresh_keeps_valid_credential() {
    let id = fresh_password();
    let header = SubjectHeader::Text("tok".to_string());
    id.apply_token_response(&header, TOKEN_BODY).unwrap();
    let just_within = EXPIRES_2030 - 601;
    assert_eq!(id.refresh_action(just_within).0, RefreshAction::UseCached);
}

#[test]
fn test_refresh_fetches_when_absent_or_stale() {
    let id = fresh_password();
    assert_eq!(id.refresh_action(0).0, RefreshAction::FetchToken);

    let id = fresh_password();
    let header = SubjectHeader::Text("tok".to_string());
    id.apply_token_response(&header, TOKEN_BODY).unwrap();
    let exactly_at_window = EXPIRES_2030 - 600;
    assert_eq!(id.refresh_action(exactly_at_window).0, RefreshAction::FetchToken);
    let past_expiry = EXPIRES_2030 + 1;
    assert_eq!(id.refresh_action(past_expiry).0, RefreshAction::FetchToken);
}

#[test]
fn test_successful_refresh_satisfies_validity() {
    let id = fresh_password();
    let now: i64 = 0;
    assert_eq!(id.refresh_action(now).0, RefreshAction::FetchToken);
    let header = SubjectHeader::Text("tok".to_string());
    id.apply_token_response(&header, TOKEN_BODY).unwrap();
    assert_eq!(id.refresh_action(now).0, RefreshAction::UseCached);
}

#[test]
fn test_failed_refresh_leaves_cache_unchanged() {
    let id = fresh_password();
    let header = SubjectHeader::Text("tok".to_string());
    id.apply_token_response(&header, "garbage").unwrap_err();
    assert_eq!(id.refresh_action(0).0, RefreshAction::FetchToken);
}

#[test]
fn test_refresh_benefits_clones() {
    let id = fresh_password();
    let duplicate = id.clone();
    assert_eq!(duplicate.refresh_action(0).0, RefreshAction::FetchToken);
    let header = SubjectHeader::Text("tok".to_string());
    id.apply_token_response(&header, TOKEN_BODY).unwrap();
    assert_eq!(duplicate.refresh_action(0).0, RefreshAction::UseCached);
    let url = duplicate.get_endpoint("compute", None).0.unwrap();
    assert_eq!(url, "http://1.2.3.4:8774/");
}

#[test]
fn test_cache_replaced_wholesale() {
    let cache = TokenCache::new();
    assert!(!cache.validate(0).0);
    assert!(cache.extract_value().0.is_none());
    let catalog: Vec<CatalogRecord> = Vec::new();
    cache.set(Token { value: "a".to_string(), expires_at: 1000, catalog });
    assert!(cache.validate(0).0);
    assert!(!cache.validate(400).0);
    assert_eq!(cache.extract_value().0, Some("a".to_string()));
    let catalog: Vec<CatalogRecord> = Vec::new();
    cache.set(Token { value: "b".to_string(), expires_at: 2000, catalog });
    assert_eq!(cache.extract_value().0, Some("b".to_string()));
    assert!(cache.validate(1399).0);
    assert!(!cache.validate(1400).0);
}

#[test]
fn test_cache_clones_share_the_slot() {
    let cache = TokenCache::new();
    let other = cache.clone();
    assert!(other.extract_value().0.is_none());
    let catalog: Vec<CatalogRecord> = Vec::new();
    cache.set(Token { value: "a".to_string(), expires_at: 1000, catalog });
    assert_eq!(other.extract_value().0, Some("a".to_string()));
    let catalog: Vec<CatalogRecord> = Vec::new();
    other.set(Token { value: "b".to_string(), expires_at: 2000, catalog });
    assert_eq!(cache.extract_value().0, Some("b".to_string()));
}

#[test]
fn test_get_endpoint_from_cached_catalog() {
    let id = fresh_password();
    let header = SubjectHeader::Text("tok".to_string());
    id.apply_token_response(&header, TOKEN_BODY).unwrap();
    let url = id.get_endpoint("compute", None).0.unwrap();
    assert_eq!(url, "http://1.2.3.4:8774/");
    let err = id.get_endpoint("volume", None).0.unwrap_err();
    assert_eq!(err.kind(), ErrorKind::EndpointNotFound);
    let err = id.get_endpoint("compute", Some("internal")).0.unwrap_err();
    assert_eq!(err.kind(), ErrorKind::EndpointNotFound);
}

#[test]
fn test_get_endpoint_without_credential() {
    let id = fresh_password();
    let err = id.get_endpoint("compute", None).0.unwrap_err();
    assert_eq!(err.kind(), ErrorKind::AuthenticationFailed);
}

#[test]
fn test_get_endpoint_rejects_bad_catalog_url() {
    let body = r#"{
      "token": {
        "expires_at": "2030-01-01T00:00:00Z",
        "catalog": [
          {"type": "compute", "endpoints": [{"interface": "public", "url": "not a url"}]}
        ]
      }
    }"#;
    let id = fresh_password();
    let header = SubjectHeader::Text("tok".to_string());
    id.apply_token_response(&header, body).unwrap();
    let err = id.get_endpoint("compute", None).0.unwrap_err();
    assert_eq!(err.kind(), ErrorKind::InvalidResponse);
    assert_eq!(err.message(), "invalid URL not a url for service compute");
}
