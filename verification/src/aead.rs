//! Authenticated symmetric encryption of raw byte payloads.
//!
//! The cipher is ChaCha20-Poly1305: a 256-bit key, a 96-bit nonce, and a
//! 16-byte authentication tag appended to the ciphertext. Authentication
//! uses a constant-time tag comparison, so a forgery attempt learns nothing
//! from timing.

use vstd::prelude::*;

use chacha20poly1305::aead::Aead;
use chacha20poly1305::KeyInit;

use crate::rng::NONCE_LEN;

verus! {

/// Bytes in an AEAD key.
pub const KEY_LEN: usize = 32;

/// Bytes in the authentication tag appended to every ciphertext.
pub const TAG_LEN: usize = 16;

/// The longest byte payload the cipher accepts: one short of 2^32 - 1 full
/// 64-byte blocks, the cipher's own block-counter ceiling.
pub const MAX_PAYLOAD: u64 = 274877906879;

/// Whether a payload of `n` bytes can go through encryption and Base64
/// framing on this machine: within the cipher's block-counter ceiling, and
/// small enough that the Base64 encoder's output length arithmetic cannot
/// overflow `usize` even with the nonce and tag framed alongside.
pub open spec fn fits_payload(n: nat) -> bool {
    n <= MAX_PAYLOAD && n + 28 <= usize::MAX / 4
}

/// The ciphertext (tag appended) that the cipher produces for a key, nonce
/// and plaintext.
pub uninterp spec fn enc_of(key: Seq<u8>, nonce: Seq<u8>, pt: Seq<u8>) -> Seq<u8>;

/// What authenticated decryption yields for a key, nonce and ciphertext:
/// the plaintext when the tag verifies, `None` when it does not.
pub uninterp spec fn dec_of(key: Seq<u8>, nonce: Seq<u8>, ct: Seq<u8>) -> Option<Seq<u8>>;

/// Relies on `chacha20poly1305::ChaCha20Poly1305::encrypt`: deterministic in
/// (key, nonce, plaintext), appends a 16-byte tag, and what it seals, its own
/// `decrypt` opens again to the same plaintext. The length bound keeps the
/// cipher under its block-counter ceiling, past which it refuses.
#[verifier::external_body]
pub(crate) fn aead_seal(key: &[u8], nonce: &[u8], pt: &[u8]) -> (r: Vec<u8>)
    requires
        key@.len() == KEY_LEN,
        nonce@.len() == NONCE_LEN,
        pt@.len() <= MAX_PAYLOAD,
    ensures
        r@ == enc_of(key@, nonce@, pt@),
        r@.len() == pt@.len() + TAG_LEN,
        dec_of(key@, nonce@, r@) == Some(pt@),
{
    let cipher = chacha20poly1305::ChaCha20Poly1305::new(
        chacha20poly1305::Key::from_slice(key),
    );
    cipher
        .encrypt(chacha20poly1305::Nonce::from_slice(nonce), pt)
        .expect("payload within the cipher's documented limit")
}

/// Relies on `chacha20poly1305::ChaCha20Poly1305::decrypt`: it verifies the
/// appended tag in constant time and returns the plaintext exactly when
/// verification succeeds; the plaintext is 16 bytes shorter than the
/// ciphertext.
#[verifier::external_body]
pub(crate) fn aead_open(key: &[u8], nonce: &[u8], ct: &[u8]) -> (r: Option<Vec<u8>>)
    requires
        key@.len() == KEY_LEN,
        nonce@.len() == NONCE_LEN,
    ensures
        r is Some <==> dec_of(key@, nonce@, ct@) is Some,
        r matches Some(v) ==> dec_of(key@, nonce@, ct@) == Some(v@) && v@.len() + TAG_LEN
            == ct@.len(),
{
    let cipher = chacha20poly1305::ChaCha20Poly1305::new(
        chacha20poly1305::Key::from_slice(key),
    );
    cipher.decrypt(chacha20poly1305::Nonce::from_slice(nonce), ct).ok()
}

} // verus!
