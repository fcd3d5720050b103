//! Cryptographically secure randomness, and the fixed-size salts and nonces
//! every other component draws from it.

use vstd::prelude::*;

use crate::encoding::{b64_dec_of, b64_encode};

verus! {

/// Bytes in a key-derivation salt.
pub const SALT_LEN: usize = 16;

/// Bytes in an AEAD nonce.
pub const NONCE_LEN: usize = 12;

/// Relies on `getrandom::getrandom` to fill the buffer from the operating
/// system's secure random source; aborts the process if that source fails.
/// Nothing is promised of the bytes beyond their number: no two calls are
/// related.
#[verifier::external_body]
pub(crate) fn random_bytes(n: usize) -> (r: Vec<u8>)
    ensures
        r@.len() == n,
{
    let mut buf = vec![0u8; n];
    getrandom::getrandom(&mut buf).expect("operating system random source failed");
    buf
}

/// A fresh 16-byte salt for password derivation, Base64-encoded.
///
/// Salts are not secret, but must be stored alongside the first use of the
/// key they helped derive.
pub fn generate_salt() -> (r: String)
    ensures
        exists|b: Seq<u8>| #[trigger] b64_dec_of(r@) == Some(b) && b.len() == SALT_LEN,
{
    let raw = random_bytes(SALT_LEN);
    b64_encode(raw.as_slice())
}

/// A fresh 12-byte AEAD nonce, Base64-encoded.
///
/// A nonce must never be reused under the same key; every encryption draws
/// its own.
pub fn generate_nonce() -> (r: String)
    ensures
        exists|b: Seq<u8>| #[trigger] b64_dec_of(r@) == Some(b) && b.len() == NONCE_LEN,
{
    let raw = random_bytes(NONCE_LEN);
    b64_encode(raw.as_slice())
}

} // verus!
