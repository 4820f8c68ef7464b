//! The protocol state machine, driven with concrete event sequences.

use send_smtp_mail::state_events::Event;
use send_smtp_mail::state_machine::{Action, State, StateMachine};
use send_smtp_mail::stream::{SmtpConnection, Stream};

fn machine_with_envelope() -> StateMachine {
    StateMachine {
        state: State::Start,
        smtp_connection: SmtpConnection {
            smtp_stream: Stream::Uninitialized,
            host: "smtp.example.com".to_string(),
            port: 587,
            username: Some("user".to_string()),
            password: Some("secret".to_string()),
            from: "alice@example.com".to_string(),
            to: "bob@example.org".to_string(),
            subject: "Greetings".to_string(),
            attachment: None,
        },
    }
}

/// Feed one event with a successful outcome; return the action taken.
fn feed(m: &mut StateMachine, e: Event) -> Action {
    let step = m.handle_event(&e);
    m.apply_outcome(&e, true);
    step.action
}

#[test]
fn full_session_reaches_finished_with_exactly_the_planned_writes() {
    let mut m = machine_with_envelope();

    let a = feed(&mut m, Event::Connect);
    assert_eq!(a, Action::ConnectTcp);
    assert_eq!(m.state, State::ConnectingTcp);
    assert_eq!(m.smtp_connection.smtp_stream, Stream::Plaintext);

    let a = feed(&mut m, Event::Received220("220 hi".to_string()));
    assert_eq!(a, Action::WriteData("EHLO rustclient\r\n".to_string()));
    assert_eq!(m.state, State::ConnectedTcpHelloSent);

    let a = feed(&mut m, Event::Received250("250 ok".to_string()));
    assert_eq!(a, Action::NoAction);
    assert_eq!(m.state, State::ConnectedTcp);

    let a = feed(&mut m, Event::Received250StartTls("250-STARTTLS".to_string()));
    assert_eq!(a, Action::WriteData("STARTTLS\r\n".to_string()));
    assert_eq!(m.state, State::ConnectedTcpStartTls);

    let a = feed(&mut m, Event::Received220("220 go ahead".to_string()));
    assert_eq!(a, Action::UpgradeTlsThenWrite("EHLO rustclient\r\n".to_string()));
    assert_eq!(m.state, State::ConnectedTls);
    assert_eq!(m.smtp_connection.smtp_stream, Stream::Encrypted);

    let a = feed(&mut m, Event::Received250StartTlsAuth("250 AUTH LOGIN".to_string()));
    assert_eq!(a, Action::WriteData("AUTH LOGIN\r\n".to_string()));
    assert_eq!(m.state, State::ConnectedTls);

    let a = feed(&mut m, Event::Received334Username);
    assert_eq!(a, Action::WriteData("dXNlcg==\r\n".to_string()));
    assert_eq!(m.state, State::ConnectedTls);

    let a = feed(&mut m, Event::Received334Password);
    assert_eq!(a, Action::WriteData("c2VjcmV0\r\n".to_string()));
    assert_eq!(m.state, State::ConnectedTls);

    let a = feed(&mut m, Event::AuthSuccess("235 accepted".to_string()));
    assert_eq!(a, Action::WriteData("MAIL FROM:<alice@example.com>\r\n".to_string()));
    assert_eq!(m.state, State::SendingMailHeaders);

    let a = feed(&mut m, Event::Received250SenderOk("250 ok".to_string()));
    assert_eq!(a, Action::WriteData("RCPT TO:<bob@example.org>\r\n".to_string()));
    assert_eq!(m.state, State::SendingMailHeaders);

    let a = feed(&mut m, Event::Received250RecipientOk("250 ok".to_string()));
    assert_eq!(a, Action::WriteData("DATA\r\n".to_string()));
    assert_eq!(m.state, State::SendingMailData);

    let a = feed(&mut m, Event::Received354MailInput("354 go".to_string()));
    match a {
        Action::SendChunks(writes) => {
            // no attachment: headers and text, closing marker, terminator
            assert_eq!(writes.len(), 3);
            assert_eq!(writes[2], "\r\n.\r\n".to_string());
        },
        other => panic!("expected the body writes, got {:?}", other),
    }
    assert_eq!(m.state, State::MailSent);
    assert_eq!(m.smtp_connection.smtp_stream, Stream::Encrypted);

    let a = feed(&mut m, Event::Received250Queued("250 queued".to_string()));
    assert_eq!(a, Action::WriteData("QUIT\r\n".to_string()));
    assert_eq!(m.state, State::Finished);
}

#[test]
fn from_start_only_connect_leaves_failure_behind() {
    let events = vec![
        Event::NoEvent,
        Event::Received220("220 hi".to_string()),
        Event::Received250("250 ok".to_string()),
        Event::Received250StartTls("250-STARTTLS".to_string()),
        Event::Received250StartTlsAuth("250 AUTH".to_string()),
        Event::Received334Username,
        Event::Received334Password,
        Event::AuthSuccess("235".to_string()),
        Event::Received250SenderOk("250".to_string()),
        Event::Received250RecipientOk("250".to_string()),
        Event::Received354MailInput("354".to_string()),
        Event::Received250Queued("250".to_string()),
        Event::Received4xx("421".to_string()),
        Event::Received5xx("550".to_string()),
        Event::Stop,
        Event::Timeout,
    ];
    for e in events {
        let mut m = machine_with_envelope();
        feed(&mut m, e);
        assert_eq!(m.state, State::Failed);
    }
    let mut m = machine_with_envelope();
    feed(&mut m, Event::Connect);
    assert_eq!(m.state, State::ConnectingTcp);
}

#[test]
fn complete_finishes_from_any_state() {
    let mut m = machine_with_envelope();
    feed(&mut m, Event::Complete);
    assert_eq!(m.state, State::Finished);
}

#[test]
fn failed_is_absorbing() {
    let mut m = machine_with_envelope();
    feed(&mut m, Event::Received5xx("554 no".to_string()));
    assert_eq!(m.state, State::Failed);
    let arbitrary = vec![
        Event::Connect,
        Event::Received220("220 hi".to_string()),
        Event::Received250("250 ok".to_string()),
        Event::Received250StartTls("250-STARTTLS".to_string()),
        Event::Received334Username,
        Event::AuthSuccess("235".to_string()),
        Event::Received354MailInput("354".to_string()),
        Event::Received250Queued("250".to_string()),
        Event::Received5xx("550".to_string()),
        Event::Stop,
        Event::Timeout,
        Event::NoEvent,
    ];
    for e in arbitrary {
        let a = feed(&mut m, e);
        assert_eq!(a, Action::NoAction);
        assert_eq!(m.state, State::Failed);
    }
}

#[test]
fn failed_connect_fails_the_session() {
    let mut m = machine_with_envelope();
    let step = m.handle_event(&Event::Connect);
    assert_eq!(step.action, Action::ConnectTcp);
    m.apply_outcome(&Event::Connect, false);
    assert_eq!(m.state, State::Failed);
    assert_eq!(m.smtp_connection.smtp_stream, Stream::Uninitialized);
}

#[test]
fn failed_write_fails_the_session() {
    let mut m = machine_with_envelope();
    feed(&mut m, Event::Connect);
    let e = Event::Received220("220 hi".to_string());
    let _ = m.handle_event(&e);
    m.apply_outcome(&e, false);
    assert_eq!(m.state, State::Failed);
}

#[test]
fn failed_tls_upgrade_fails_the_session() {
    let mut m = machine_with_envelope();
    feed(&mut m, Event::Connect);
    feed(&mut m, Event::Received220("220 hi".to_string()));
    feed(&mut m, Event::Received250StartTls("250-STARTTLS".to_string()));
    let e = Event::Received220("220 go ahead".to_string());
    let _ = m.handle_event(&e);
    m.apply_outcome(&e, false);
    assert_eq!(m.state, State::Failed);
    assert_eq!(m.smtp_connection.smtp_stream, Stream::Uninitialized);
}

#[test]
fn missing_username_fails_the_challenge() {
    let mut m = machine_with_envelope();
    m.smtp_connection.username = None;
    m.state = State::ConnectedTls;
    m.smtp_connection.smtp_stream = Stream::Encrypted;
    let a = feed(&mut m, Event::Received334Username);
    assert_eq!(a, Action::NoAction);
    assert_eq!(m.state, State::Failed);
}

#[test]
fn missing_password_fails_the_challenge() {
    let mut m = machine_with_envelope();
    m.smtp_connection.password = None;
    m.state = State::ConnectedTls;
    m.smtp_connection.smtp_stream = Stream::Encrypted;
    let a = feed(&mut m, Event::Received334Password);
    assert_eq!(a, Action::NoAction);
    assert_eq!(m.state, State::Failed);
}

#[test]
fn permanent_error_fails_mid_session() {
    let mut m = machine_with_envelope();
    feed(&mut m, Event::Connect);
    feed(&mut m, Event::Received220("220 hi".to_string()));
    let a = feed(&mut m, Event::Received5xx("550 denied".to_string()));
    assert_eq!(a, Action::NoAction);
    assert_eq!(m.state, State::Failed);
}

#[test]
fn starttls_offer_also_accepted_before_hello_reply() {
    let mut m = machine_with_envelope();
    feed(&mut m, Event::Connect);
    feed(&mut m, Event::Received220("220 hi".to_string()));
    assert_eq!(m.state, State::ConnectedTcpHelloSent);
    let a = feed(&mut m, Event::Received250StartTls("250-STARTTLS".to_string()));
    assert_eq!(a, Action::WriteData("STARTTLS\r\n".to_string()));
    assert_eq!(m.state, State::ConnectedTcpStartTls);
}

#[test]
fn new_machine_starts_unconnected() {
    let m = StateMachine::new("smtp.example.com", 25);
    assert_eq!(m.state, State::Start);
    assert_eq!(m.smtp_connection.smtp_stream, Stream::Uninitialized);
    assert_eq!(m.smtp_connection.host, "smtp.example.com".to_string());
    assert_eq!(m.smtp_connection.port, 25);
    assert!(m.smtp_connection.username.is_none());
    assert!(m.smtp_connection.password.is_none());
}

#[test]
fn complete_finishes_even_after_failure() {
    // the one event that moves the machine out of `Failed`
    let mut m = machine_with_envelope();
    feed(&mut m, Event::Received5xx("554 no".to_string()));
    assert_eq!(m.state, State::Failed);
    feed(&mut m, Event::Complete);
    assert_eq!(m.state, State::Finished);
}
