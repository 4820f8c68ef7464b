//! The event classifier on concrete server responses.

use send_smtp_mail::state_events::{get_event, Event};

#[test]
fn starttls_offer_wins_over_plain_250() {
    let e = get_event(Some("250-STARTTLS\r\n250 AUTH LOGIN\r\n"));
    assert_eq!(e, Event::Received250StartTls("250-STARTTLS".to_string()));
}

#[test]
fn transient_error_carries_exact_text() {
    let e = get_event(Some("421 Service not available\r\n"));
    assert_eq!(e, Event::Received4xx("421 Service not available".to_string()));
}

#[test]
fn greeting_220() {
    let e = get_event(Some("220 smtp.example.com ESMTP ready\r\n"));
    assert_eq!(e, Event::Received220("220 smtp.example.com ESMTP ready".to_string()));
}

#[test]
fn plain_250() {
    let e = get_event(Some("250 OK\r\n"));
    assert_eq!(e, Event::Received250("250 OK".to_string()));
}

#[test]
fn auth_offer_without_starttls() {
    let e = get_event(Some("250-AUTH LOGIN PLAIN\r\n250 SIZE 1000000\r\n"));
    assert_eq!(e, Event::Received250StartTlsAuth("250-AUTH LOGIN PLAIN".to_string()));
}

#[test]
fn username_challenge() {
    // "VXNlcm5hbWU6" is base64 of "Username:"; a classifier that did not
    // really base64-encode the prompt would not match this line.
    let e = get_event(Some("334 VXNlcm5hbWU6\r\n"));
    assert_eq!(e, Event::Received334Username);
}

#[test]
fn password_challenge() {
    let e = get_event(Some("334 UGFzc3dvcmQ6\r\n"));
    assert_eq!(e, Event::Received334Password);
}

#[test]
fn unencoded_prompt_is_not_a_challenge() {
    let e = get_event(Some("334 Username:\r\n"));
    assert_eq!(e, Event::NoEvent);
}

#[test]
fn permanent_error() {
    let e = get_event(Some("550 No such user here\r\n"));
    assert_eq!(e, Event::Received5xx("550 No such user here".to_string()));
}

#[test]
fn failed_read_is_stop() {
    let e = get_event(None);
    assert_eq!(e, Event::Stop);
}

#[test]
fn unmatched_text_is_no_event() {
    assert_eq!(get_event(Some("hello there\r\n")), Event::NoEvent);
    assert_eq!(get_event(Some("")), Event::NoEvent);
}

#[test]
fn later_line_can_match() {
    let e = get_event(Some("banner\r\n220 hi\r\n"));
    assert_eq!(e, Event::Received220("220 hi".to_string()));
}

#[test]
fn line_without_terminator_matches() {
    let e = get_event(Some("220 hi"));
    assert_eq!(e, Event::Received220("220 hi".to_string()));
}
