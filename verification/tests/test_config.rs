//! Assembling an authentication method from configuration values.

use osauth::config::{password_from_config, CloudConfig};
use osauth::error::ErrorKind;

fn base_config() -> CloudConfig {
    CloudConfig {
        auth_url: "http://127.0.0.1:5000/".to_string(),
        username: "user".to_string(),
        password: "pa$$w0rd".to_string(),
        user_domain_name: None,
        project_name: None,
        project_domain_name: None,
        region_name: None,
    }
}

#[test]
fn test_domains_default_to_default() {
    let id = password_from_config(&base_config()).unwrap();
    assert_eq!(&id.body.auth.identity.password.user.domain.name, "Default");
    assert!(id.body.auth.scope.is_none());
    assert_eq!(id.region(), None);
}

#[test]
fn test_project_scope_and_region_taken_over() {
    let mut cfg = base_config();
    cfg.user_domain_name = Some("users.example.com".to_string());
    cfg.project_name = Some("cool project".to_string());
    cfg.project_domain_name = Some("projects.example.com".to_string());
    cfg.region_name = Some("east".to_string());
    let id = password_from_config(&cfg).unwrap();
    assert_eq!(
        &id.body.auth.identity.password.user.domain.name,
        "users.example.com"
    );
    let scope = id.body.auth.scope.as_ref().unwrap();
    assert_eq!(&scope.project.name, "cool project");
    assert_eq!(&scope.project.domain.name, "projects.example.com");
    assert_eq!(id.region(), Some("east".to_string()));
}

#[test]
fn test_project_domain_defaults_when_project_named() {
    let mut cfg = base_config();
    cfg.project_name = Some("p".to_string());
    let id = password_from_config(&cfg).unwrap();
    let scope = id.body.auth.scope.as_ref().unwrap();
    assert_eq!(&scope.project.domain.name, "Default");
}

#[test]
fn test_bad_auth_url_is_config_error() {
    let mut cfg = base_config();
    cfg.auth_url = "::: not a url :::".to_string();
    let err = password_from_config(&cfg).err().unwrap();
    assert_eq!(err.kind(), ErrorKind::InvalidConfig);
}
