//! The error envelope itself.

use osauth::{Error, ErrorKind};

#[test]
fn test_error_carries_kind_message_status() {
    let e = Error::new(ErrorKind::Transport, "connection reset".to_string());
    assert_eq!(e.kind(), ErrorKind::Transport);
    assert_eq!(e.message(), "connection reset");
    assert_eq!(e.status(), None);
    let e = e.with_status(504);
    assert_eq!(e.status(), Some(504));
    assert_eq!(e.kind(), ErrorKind::Transport);
    assert_eq!(e.message(), "connection reset");
}

#[test]
fn test_error_kinds_are_distinct() {
    assert_ne!(ErrorKind::InvalidConfig, ErrorKind::InvalidResponse);
    assert_ne!(ErrorKind::AuthenticationFailed, ErrorKind::Http);
    assert_ne!(ErrorKind::EndpointNotFound, ErrorKind::Transport);
}
