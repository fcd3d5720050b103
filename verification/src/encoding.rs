//! Canonical text encoding for byte strings crossing the engine's boundary.
//!
//! Every key, nonce, salt, ciphertext and wrapped key leaves the engine as
//! standard, padded Base64 text. Encoding and decoding are exact inverses:
//! the decoder accepts only canonical encodings, so a text either is the
//! encoding of exactly one byte string or decodes to nothing.

use vstd::prelude::*;

use base64::Engine;

verus! {

/// The Base64 text of a byte string, as the standard padded alphabet writes it.
pub uninterp spec fn b64_of(b: Seq<u8>) -> Seq<char>;

/// What the standard padded Base64 decoder yields for a text: the unique byte
/// string the text encodes, or `None` when the text is not a canonical encoding.
pub uninterp spec fn b64_dec_of(s: Seq<char>) -> Option<Seq<u8>>;

/// Relies on `base64::engine::general_purpose::STANDARD.encode`: standard
/// alphabet with padding; its output decodes back to the input. The length
/// bound keeps the encoder's internal output-size arithmetic from overflowing,
/// which the crate documents as a panic.
#[verifier::external_body]
pub(crate) fn b64_encode(b: &[u8]) -> (r: String)
    requires
        b@.len() <= usize::MAX / 4,
    ensures
        r@ == b64_of(b@),
        b64_dec_of(r@) == Some(b@),
{
    base64::engine::general_purpose::STANDARD.encode(b)
}

/// Relies on `base64::engine::general_purpose::STANDARD.decode`: it succeeds
/// exactly on canonical padded encodings, and then returns the encoded bytes.
#[verifier::external_body]
pub(crate) fn b64_decode(s: &str) -> (r: Option<Vec<u8>>)
    ensures
        r is Some <==> b64_dec_of(s@) is Some,
        r matches Some(v) ==> b64_dec_of(s@) == Some(v@) && s@ == b64_of(v@),
{
    base64::engine::general_purpose::STANDARD.decode(s).ok()
}

} // verus!
