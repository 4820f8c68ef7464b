//! The Body Sender and the base64 chunking, with the real `base64` crate.

use base64::engine::general_purpose::STANDARD;
use base64::Engine;
use send_smtp_mail::send_body::{chunk_and_encode, send_body, CHUNK_SIZE};
use send_smtp_mail::stream::{Attachment, SmtpConnection, Stream};

fn connection(attachment: Option<Attachment>) -> SmtpConnection {
    SmtpConnection {
        smtp_stream: Stream::Encrypted,
        host: "smtp.example.com".to_string(),
        port: 587,
        username: Some("user".to_string()),
        password: Some("secret".to_string()),
        from: "alice@example.com".to_string(),
        to: "bob@example.org".to_string(),
        subject: "Quarterly report".to_string(),
        attachment,
    }
}

fn rejoin(chunks: &[String]) -> String {
    let mut joined = String::new();
    for ch in chunks {
        assert!(ch.ends_with("\r\n"));
        joined.push_str(&ch[..ch.len() - 2]);
    }
    joined
}

#[test]
fn attachment_round_trip() {
    let data: Vec<u8> = (0u32..1000).map(|i| (i * 7 % 256) as u8).collect();
    let chunks = chunk_and_encode(&data, CHUNK_SIZE);
    let joined = rejoin(&chunks);
    assert_eq!(joined, STANDARD.encode(&data));
    assert_eq!(STANDARD.decode(joined.as_bytes()).unwrap(), data);
}

#[test]
fn chunk_lengths_are_multiples_of_four() {
    let data: Vec<u8> = (0u32..500).map(|i| (i % 251) as u8).collect();
    let chunks = chunk_and_encode(&data, CHUNK_SIZE);
    assert!(!chunks.is_empty());
    for (i, ch) in chunks.iter().enumerate() {
        let body = ch.len() - 2;
        assert!(body > 0);
        assert!(body <= CHUNK_SIZE);
        assert_eq!(body % 4, 0);
        if i + 1 < chunks.len() {
            assert_eq!(body, CHUNK_SIZE);
        }
    }
}

#[test]
fn chunk_size_rounds_down_with_floor_four() {
    let data = vec![1u8; 30];
    // 30 bytes encode to 40 characters of base64 text
    let sizes = chunk_and_encode(&data, 7);
    for ch in &sizes[..sizes.len() - 1] {
        assert_eq!(ch.len() - 2, 4);
    }
    let zero = chunk_and_encode(&data, 0);
    for ch in &zero[..zero.len() - 1] {
        assert_eq!(ch.len() - 2, 4);
    }
    assert_eq!(rejoin(&zero), STANDARD.encode(&data));
}

#[test]
fn small_input_single_chunk_exact_value() {
    let chunks = chunk_and_encode(b"abc", 8);
    assert_eq!(chunks, vec!["YWJj\r\n".to_string()]);
}

#[test]
fn empty_input_yields_no_chunks() {
    let chunks = chunk_and_encode(b"", CHUNK_SIZE);
    assert!(chunks.is_empty());
}

#[test]
fn body_without_attachment_has_no_attachment_section_and_one_dot_line() {
    let writes = send_body(&connection(None));
    assert_eq!(writes.len(), 3);
    assert!(writes[0].starts_with("From: alice@example.com\r\n"));
    assert_eq!(writes[1], "\r\n--boundary123456789--\r\n".to_string());
    assert_eq!(writes[2], "\r\n.\r\n".to_string());
    let whole: String = writes.concat();
    assert!(!whole.contains("Content-Disposition"));
    let dot_lines = whole.lines().filter(|l| *l == ".").count();
    assert_eq!(dot_lines, 1);
    assert!(whole.ends_with("\r\n.\r\n"));
}

#[test]
fn body_headers_carry_the_envelope() {
    let writes = send_body(&connection(None));
    let head = &writes[0];
    assert!(head.contains("From: alice@example.com\r\n"));
    assert!(head.contains("To: bob@example.org\r\n"));
    assert!(head.contains("Subject: Quarterly report\r\n"));
    assert!(head.contains("MIME-Version: 1.0\r\n"));
    assert!(head.contains("Content-Type: multipart/mixed; boundary=\"boundary123456789\"\r\n"));
    assert!(head.contains("Content-Type: text/plain; charset=utf-8\r\n"));
    assert!(head.contains("Was sent from alice@example.com to bob@example.org.\r\n"));
    assert!(head.contains("Subject: \"Quarterly report\"\r\n"));
}

#[test]
fn empty_attachment_data_sends_no_attachment_section() {
    let conn = connection(Some(Attachment { name: "empty.bin".to_string(), data: vec![] }));
    let writes = send_body(&conn);
    assert_eq!(writes.len(), 3);
    assert_eq!(writes[2], "\r\n.\r\n".to_string());
}

#[test]
fn body_with_attachment_streams_it_in_chunks() {
    let data: Vec<u8> = (0u32..300).map(|i| (i % 256) as u8).collect();
    let conn = connection(Some(Attachment { name: "report.pdf".to_string(), data: data.clone() }));
    let writes = send_body(&conn);
    let chunks = chunk_and_encode(&data, CHUNK_SIZE);
    assert_eq!(writes.len(), 4 + chunks.len());
    assert!(writes[0].starts_with("From: "));
    assert!(writes[1].starts_with(
        "--boundary123456789\r\nContent-Type: application/octet-stream\r\n"
    ));
    assert!(writes[1].contains("Content-Disposition: attachment; filename=\"report.pdf\"\r\n"));
    assert!(writes[1].contains("Content-Transfer-Encoding: base64\r\n"));
    for (i, ch) in chunks.iter().enumerate() {
        assert_eq!(&writes[2 + i], ch);
    }
    assert_eq!(writes[writes.len() - 2], "\r\n--boundary123456789--\r\n\r\n".to_string());
    assert_eq!(writes[writes.len() - 1], "\r\n.\r\n".to_string());
    // the streamed base64 text reproduces the attachment bytes
    let joined = rejoin(&chunks);
    assert_eq!(STANDARD.decode(joined.as_bytes()).unwrap(), data);
}

#[test]
fn data_filling_whole_chunks_exactly() {
    // 57 bytes encode to exactly 76 base64 characters: one full chunk
    let data = vec![42u8; 57];
    let chunks = chunk_and_encode(&data, CHUNK_SIZE);
    assert_eq!(chunks.len(), 1);
    assert_eq!(chunks[0].len(), CHUNK_SIZE + 2);
    assert_eq!(rejoin(&chunks), STANDARD.encode(&data));
}

#[test]
fn periods_in_the_envelope_do_not_add_dot_lines() {
    let mut conn = connection(None);
    conn.from = "alice.smith@example.com".to_string();
    conn.subject = "Totals. Final.".to_string();
    let writes = send_body(&conn);
    let whole: String = writes.concat();
    let dot_lines = whole.lines().filter(|l| *l == ".").count();
    assert_eq!(dot_lines, 1);
    assert!(whole.ends_with("\r\n.\r\n"));
}
