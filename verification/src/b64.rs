//! The one outside computation the protocol logic needs: base64.
//!
//! Credentials for AUTH LOGIN, the challenge prompts, and the attachment body
//! are all encoded with the RFC 4648 standard alphabet, with padding. The
//! encoding itself is done by the `base64` crate; its result is named
//! `b64_of` and everything the library proves about encoded text goes
//! through that name and the two stated facts: the output length is
//! `4 * ceil(n / 3)` and the output is ASCII.

use base64::Engine;
use vstd::prelude::*;

verus! {

/// The RFC 4648 standard base64 encoding, with padding, of `data`, as text.
pub uninterp spec fn b64_of(data: Seq<u8>) -> Seq<char>;

/// Relies on the `base64` crate's `STANDARD` engine: RFC 4648 section 4
/// encoding with the standard alphabet and `=` padding. Its documentation
/// gives the padded output length as `4 * ceil(n / 3)` characters, all of
/// them from the (ASCII) standard alphabet.
#[verifier::external_body]
pub(crate) fn b64_encode(data: &[u8]) -> (r: String)
    requires
        4 * ((data@.len() + 2) / 3) <= usize::MAX,
    ensures
        r@ == b64_of(data@),
        r@.len() == 4 * ((data@.len() + 2) / 3),
        vstd::utf8::is_ascii_chars(r@),
{
    base64::engine::general_purpose::STANDARD.encode(data)
}

} // verus!
