//! Transport-variant bookkeeping for one SMTP connection.
//!
//! A session owns exactly one byte stream, which starts out absent, becomes a
//! plaintext TCP stream on connect, and is upgraded in place to a TLS stream
//! by STARTTLS. The sockets themselves live in the unverified driver; the
//! library tracks which variant is active and decides which transitions are
//! legal. The driver reports whether each underlying I/O operation succeeded.

use vstd::prelude::*;

verus! {

/// The active variant of the transport handle. Once `Encrypted`, a
/// connection is never observed as `Plaintext` again for its lifetime.
#[derive(Clone, Copy, Debug, PartialEq, Eq, Structural)]
pub enum Stream {
    Uninitialized,
    Plaintext,
    Encrypted,
}

/// The failure kinds of the transport layer: DNS/TCP connection failure,
/// TLS handshake failure, and an upgrade attempted from the wrong variant.
#[derive(Clone, Copy, Debug, PartialEq, Eq, Structural)]
pub enum TransportError {
    Connection,
    Handshake,
    InvalidState,
}

/// An optional attachment: a file name and its raw bytes.
pub struct Attachment {
    pub name: String,
    pub data: Vec<u8>,
}

/// One SMTP session: the transport variant plus the session parameters,
/// immutable for the lifetime of the session once constructed.
pub struct SmtpConnection {
    pub smtp_stream: Stream,
    pub host: String,
    pub port: u16,
    pub username: Option<String>,
    pub password: Option<String>,
    pub from: String,
    pub to: String,
    pub subject: String,
    pub attachment: Option<Attachment>,
}

/// The session parameters of `a` and `b` agree; only the transport variant
/// may differ. Transport operations never touch the session parameters.
pub open spec fn same_session(a: SmtpConnection, b: SmtpConnection) -> bool {
    &&& a.host == b.host
    &&& a.port == b.port
    &&& a.username == b.username
    &&& a.password == b.password
    &&& a.from == b.from
    &&& a.to == b.to
    &&& a.subject == b.subject
    &&& a.attachment == b.attachment
}

/// What the transport variant becomes when a TLS upgrade is attempted and the
/// handshake outcome is `ok`. Only the `Plaintext` variant can be consumed:
/// on success it becomes `Encrypted`; on failure the plaintext stream has
/// already been given up to the failed handshake, so nothing is left. From
/// any other variant the attempt is rejected and the variant is unchanged.
pub open spec fn spec_upgrade(s: Stream, ok: bool) -> Stream {
    match s {
        Stream::Plaintext => if ok {
            Stream::Encrypted
        } else {
            Stream::Uninitialized
        },
        _ => s,
    }
}

impl SmtpConnection {
    /// A fresh, not yet connected session for `host:port` with the given
    /// credentials and an empty envelope.
    pub fn new(host: &str, port: u16, username: Option<&str>, password: Option<&str>) -> (c: Self)
        ensures
            c.smtp_stream == Stream::Uninitialized,
            c.host@ == host@,
            c.port == port,
            username is Some <==> c.username is Some,
            username is Some ==> c.username->0@ == username->0@,
            password is Some <==> c.password is Some,
            password is Some ==> c.password->0@ == password->0@,
            c.from@ == Seq::<char>::empty(),
            c.to@ == Seq::<char>::empty(),
            c.subject@ == Seq::<char>::empty(),
            c.attachment is None,
    {
        SmtpConnection {
            smtp_stream: Stream::Uninitialized,
            host: String::from_str(host),
            port,
            username: match username {
                Some(u) => Some(String::from_str(u)),
                None => None,
            },
            password: match password {
                Some(p) => Some(String::from_str(p)),
                None => None,
            },
            from: String::new(),
            to: String::new(),
            subject: String::new(),
            attachment: None,
        }
    }

    /// Record the outcome of opening the TCP connection. The driver resolves
    /// the address and connects, then reports `connected`. On success the
    /// active variant becomes `Plaintext`, silently replacing whatever handle
    /// was active before; on failure the variant is left as it was and a
    /// connection-kind error is returned.
    pub fn connect_to_server(&mut self, connected: bool) -> (r: Result<(), TransportError>)
        ensures
            same_session(*old(self), *final(self)),
            connected ==> r is Ok && final(self).smtp_stream == Stream::Plaintext,
            !connected ==> r == Result::<(), TransportError>::Err(TransportError::Connection)
                && final(self).smtp_stream == old(self).smtp_stream,
    {
        if connected {
            self.smtp_stream = Stream::Plaintext;
            Ok(())
        } else {
            Err(TransportError::Connection)
        }
    }

    /// Record the outcome of the in-place STARTTLS upgrade. Legal only while
    /// the `Plaintext` variant is active: the driver performs the handshake
    /// and reports `handshake_ok`. On success the plaintext handle is
    /// consumed and the variant becomes `Encrypted`, atomically from the
    /// caller's point of view. A failed handshake has already consumed the
    /// plaintext handle, leaving `Uninitialized`. Calling this while
    /// `Uninitialized`, or a second time while already `Encrypted`, is a
    /// state-kind error and changes nothing.
    pub fn switch_to_tls(&mut self, handshake_ok: bool) -> (r: Result<(), TransportError>)
        ensures
            same_session(*old(self), *final(self)),
            final(self).smtp_stream == spec_upgrade(old(self).smtp_stream, handshake_ok),
            r is Ok <==> (old(self).smtp_stream == Stream::Plaintext && handshake_ok),
            old(self).smtp_stream != Stream::Plaintext
                ==> r == Result::<(), TransportError>::Err(TransportError::InvalidState),
            old(self).smtp_stream == Stream::Plaintext && !handshake_ok
                ==> r == Result::<(), TransportError>::Err(TransportError::Handshake),
            old(self).smtp_stream == Stream::Encrypted ==> final(self).smtp_stream == Stream::Encrypted,
    {
        match self.smtp_stream {
            Stream::Plaintext => {
                if handshake_ok {
                    self.smtp_stream = Stream::Encrypted;
                    Ok(())
                } else {
                    self.smtp_stream = Stream::Uninitialized;
                    Err(TransportError::Handshake)
                }
            },
            _ => Err(TransportError::InvalidState),
        }
    }

    /// Whether a stream is active at all; reads and writes are only possible
    /// when this holds.
    pub fn has_stream(&self) -> (b: bool)
        ensures
            b == (self.smtp_stream != Stream::Uninitialized),
    {
        !matches!(self.smtp_stream, Stream::Uninitialized)
    }
}

/// Monotonicity of the transport variant: no transport operation, whatever
/// its outcome, can take an `Encrypted` connection back to `Plaintext`.
pub proof fn lemma_upgrade_never_decrypts(s: Stream, ok: bool)
    ensures
        s == Stream::Encrypted ==> spec_upgrade(s, ok) == Stream::Encrypted,
        spec_upgrade(s, ok) == Stream::Plaintext ==> s == Stream::Plaintext,
{
}

} // verus!
