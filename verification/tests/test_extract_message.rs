//! Response classification: message extraction from known error shapes.

use osauth::client::{check, extract_message};
use osauth::error::ErrorKind;

#[test]
fn test_plain() {
    let msg = "<html><body>I failed</body></html>";
    let result = extract_message(msg.to_string());
    assert_eq!(result, msg);
}

#[test]
fn test_simple_message() {
    let msg = r#"{"message": "I failed"}"#;
    let result = extract_message(msg.to_string());
    assert_eq!(result, "I failed");
}

#[test]
fn test_nested_message() {
    let msg = r#"{"SomethingFailed": {"message": "I failed"}}"#;
    let result = extract_message(msg.to_string());
    assert_eq!(result, "I failed");
}

#[test]
fn test_ironic_message() {
    let msg = r#"{"error_message": {"faultstring": "I failed"}}"#;
    let result = extract_message(msg.to_string());
    assert_eq!(result, "I failed");
}

#[test]
fn test_ironic_legacy() {
    let msg = r#"{"error_message": "{\"faultstring\": \"I failed\"}"}"#;
    let result = extract_message(msg.to_string());
    assert_eq!(result, "I failed");
}

#[test]
fn test_priority_order() {
    let msg = r#"{"title": "t", "faultstring": "f", "message": "m"}"#;
    assert_eq!(extract_message(msg.to_string()), "m");
    let msg = r#"{"title": "t", "faultstring": "f"}"#;
    assert_eq!(extract_message(msg.to_string()), "f");
    let msg = r#"{"title": "t"}"#;
    assert_eq!(extract_message(msg.to_string()), "t");
}

#[test]
fn test_empty_object_falls_back() {
    let msg = "{}";
    assert_eq!(extract_message(msg.to_string()), "{}");
}

#[test]
fn test_recursion_is_one_level() {
    let msg = r#"{"error_message": "{\"error_message\": \"{\\\"message\\\": \\\"deep\\\"}\"}"}"#;
    assert_eq!(extract_message(msg.to_string()), msg);
}

#[test]
fn test_check_passes_success_through() {
    assert!(check(200, "ok".to_string()).is_ok());
    assert!(check(302, "redirect".to_string()).is_ok());
    assert!(check(399, "".to_string()).is_ok());
    assert!(check(600, "".to_string()).is_ok());
}

#[test]
fn test_check_classifies_client_error() {
    let err = check(400, r#"{"message": "I failed"}"#.to_string()).unwrap_err();
    assert_eq!(err.kind(), ErrorKind::Http);
    assert_eq!(err.status(), Some(400));
    assert_eq!(err.message(), "I failed");
}

#[test]
fn test_check_maps_unauthorized() {
    let err = check(401, "denied".to_string()).unwrap_err();
    assert_eq!(err.kind(), ErrorKind::AuthenticationFailed);
    assert_eq!(err.status(), Some(401));
    assert_eq!(err.message(), "denied");
}

#[test]
fn test_check_server_error_keeps_raw_body() {
    let err = check(503, "<html>oops</html>".to_string()).unwrap_err();
    assert_eq!(err.kind(), ErrorKind::Http);
    assert_eq!(err.status(), Some(503));
    assert_eq!(err.message(), "<html>oops</html>");
}
