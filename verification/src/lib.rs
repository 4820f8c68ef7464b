//! A single-shot SMTP client core: the protocol state machine, the event
//! classifier, the transport-variant bookkeeping for the STARTTLS upgrade,
//! and the MIME body builder with a base64-chunked attachment.
//!
//! The library decides; an unverified driver performs the network I/O and
//! reports each outcome back.

pub mod b64;
pub mod send_body;
pub mod state_events;
pub mod state_machine;
pub mod stream;
pub mod strutil;
