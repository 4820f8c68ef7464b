//! The transport-variant bookkeeping: connect, the one-time TLS upgrade,
//! and its error kinds.

use send_smtp_mail::stream::{SmtpConnection, Stream, TransportError};

fn fresh() -> SmtpConnection {
    SmtpConnection::new("smtp.example.com", 587, Some("user"), Some("secret"))
}

#[test]
fn new_connection_is_uninitialized() {
    let c = fresh();
    assert_eq!(c.smtp_stream, Stream::Uninitialized);
    assert!(!c.has_stream());
    assert_eq!(c.host, "smtp.example.com".to_string());
    assert_eq!(c.port, 587);
    assert_eq!(c.username, Some("user".to_string()));
    assert_eq!(c.password, Some("secret".to_string()));
    assert!(c.attachment.is_none());
}

#[test]
fn connect_then_upgrade() {
    let mut c = fresh();
    assert!(c.connect_to_server(true).is_ok());
    assert_eq!(c.smtp_stream, Stream::Plaintext);
    assert!(c.has_stream());
    assert!(c.switch_to_tls(true).is_ok());
    assert_eq!(c.smtp_stream, Stream::Encrypted);
    assert!(c.has_stream());
}

#[test]
fn failed_connect_is_a_connection_error() {
    let mut c = fresh();
    assert_eq!(c.connect_to_server(false), Err(TransportError::Connection));
    assert_eq!(c.smtp_stream, Stream::Uninitialized);
}

#[test]
fn upgrade_before_connect_is_a_state_error() {
    let mut c = fresh();
    assert_eq!(c.switch_to_tls(true), Err(TransportError::InvalidState));
    assert_eq!(c.smtp_stream, Stream::Uninitialized);
}

#[test]
fn failed_handshake_consumes_the_plaintext_stream() {
    let mut c = fresh();
    c.connect_to_server(true).unwrap();
    assert_eq!(c.switch_to_tls(false), Err(TransportError::Handshake));
    assert_eq!(c.smtp_stream, Stream::Uninitialized);
    assert!(!c.has_stream());
}

#[test]
fn second_upgrade_is_rejected_and_stays_encrypted() {
    let mut c = fresh();
    c.connect_to_server(true).unwrap();
    c.switch_to_tls(true).unwrap();
    assert_eq!(c.switch_to_tls(true), Err(TransportError::InvalidState));
    assert_eq!(c.smtp_stream, Stream::Encrypted);
    assert_eq!(c.switch_to_tls(false), Err(TransportError::InvalidState));
    assert_eq!(c.smtp_stream, Stream::Encrypted);
}

#[test]
fn reconnect_replaces_the_handle() {
    let mut c = fresh();
    c.connect_to_server(true).unwrap();
    assert!(c.connect_to_server(true).is_ok());
    assert_eq!(c.smtp_stream, Stream::Plaintext);
}
