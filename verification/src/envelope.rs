//! Key wrapping: delivering one symmetric key to one recipient.
//!
//! The sender generates a single-use ephemeral key pair, agrees it with the
//! recipient's static public key, hashes the agreement into a one-time AEAD
//! key, and seals the 32-byte message key under it. The recipient redoes the
//! agreement from the other side with the ephemeral public key and opens the
//! seal. The ephemeral private key is discarded at once, so no envelope
//! helps decrypt any other.

use vstd::prelude::*;

use crate::aead::{aead_open, aead_seal, dec_of, KEY_LEN};
use crate::dh::{dh_public_key, dh_of, public_of, x25519_agree, DH_KEY_LEN};
use crate::encoding::{b64_decode, b64_dec_of, b64_encode, b64_of};
use crate::error::CryptoError;
use crate::hashing::{sha256, sha256_of};
use crate::keys::{private_key_matches, AeadKey};
use crate::rng::{random_bytes, NONCE_LEN};

verus! {

/// The one-time AEAD key both sides derive from a Diffie-Hellman agreement.
pub open spec fn wrap_key_of(shared: Seq<u8>) -> Seq<u8> {
    sha256_of(shared)
}

/// What unwrapping yields for the four Base64 texts of an envelope: the
/// 32-byte key it wraps, or the error naming the first step that failed.
/// Malformed key material is `InvalidKey`; a malformed nonce or wrapped-key
/// text is `InvalidEncoding`; a failed authentication is `DecryptionFailed`.
pub open spec fn key_unwrapping(
    wrapped_b64: Seq<char>,
    eph_pub_b64: Seq<char>,
    nonce_b64: Seq<char>,
    sk_b64: Seq<char>,
) -> Result<Seq<u8>, CryptoError> {
    match b64_dec_of(sk_b64) {
        Option::None => Err(CryptoError::InvalidKey),
        Option::Some(sk) => if sk.len() != DH_KEY_LEN {
            Err(CryptoError::InvalidKey)
        } else {
            match b64_dec_of(eph_pub_b64) {
                Option::None => Err(CryptoError::InvalidKey),
                Option::Some(eph) => if eph.len() != DH_KEY_LEN {
                    Err(CryptoError::InvalidKey)
                } else {
                    match b64_dec_of(nonce_b64) {
                        Option::None => Err(CryptoError::InvalidEncoding),
                        Option::Some(nonce) => if nonce.len() != NONCE_LEN {
                            Err(CryptoError::InvalidEncoding)
                        } else {
                            match b64_dec_of(wrapped_b64) {
                                Option::None => Err(CryptoError::InvalidEncoding),
                                Option::Some(wrapped) => match dec_of(
                                    wrap_key_of(dh_of(sk, eph)),
                                    nonce,
                                    wrapped,
                                ) {
                                    Option::None => Err(CryptoError::DecryptionFailed),
                                    Option::Some(k) => if k.len() == KEY_LEN {
                                        Ok(k)
                                    } else {
                                        Err(CryptoError::DecryptionFailed)
                                    },
                                },
                            }
                        },
                    }
                },
            }
        },
    }
}

/// Whether the three texts of an envelope wrap the key `k` for the holder
/// of the public key in `receiver_pub_b64`: every matching private key
/// unwraps them to exactly `k`.
pub open spec fn wraps_key_for(
    wrapped_b64: Seq<char>,
    eph_pub_b64: Seq<char>,
    nonce_b64: Seq<char>,
    receiver_pub_b64: Seq<char>,
    k: Seq<u8>,
) -> bool {
    forall|sk_b64: Seq<char>|
        #[trigger] private_key_matches(sk_b64, receiver_pub_b64) ==> key_unwrapping(
            wrapped_b64,
            eph_pub_b64,
            nonce_b64,
            sk_b64,
        ) == Ok::<_, CryptoError>(k)
}

/// Whether a text is the canonical encoding of a 32-byte public key.
pub open spec fn valid_public_key_text(s: Seq<char>) -> bool {
    b64_dec_of(s) matches Some(p) && p.len() == DH_KEY_LEN
}

/// Envelope round trip: an envelope wrapped for a public key unwraps, under
/// any matching private key, to exactly the key it wraps. This is the law
/// `wrap_symmetric_key` establishes and `unwrap_symmetric_key` consumes.
pub proof fn lemma_envelope_round_trip(
    wrapped_b64: Seq<char>,
    eph_pub_b64: Seq<char>,
    nonce_b64: Seq<char>,
    receiver_pub_b64: Seq<char>,
    sk_b64: Seq<char>,
    k: Seq<u8>,
)
    requires
        wraps_key_for(wrapped_b64, eph_pub_b64, nonce_b64, receiver_pub_b64, k),
        private_key_matches(sk_b64, receiver_pub_b64),
    ensures
        key_unwrapping(wrapped_b64, eph_pub_b64, nonce_b64, sk_b64) == Ok::<_, CryptoError>(k),
{
}

/// Wraps a 32-byte key for one recipient, sealing it under the given nonce.
///
/// Factored out of `wrap_symmetric_key` so that a caller encrypting one
/// message for many recipients can bind every envelope to the message's own
/// nonce.
pub(crate) fn wrap_symmetric_key_with_nonce(
    key_to_wrap: &AeadKey,
    receiver_public_key_b64: &str,
    nonce: &[u8],
) -> (r: Result<(String, String, String), CryptoError>)
    requires
        key_to_wrap.wf(),
        nonce@.len() == NONCE_LEN,
    ensures
        r is Ok <==> valid_public_key_text(receiver_public_key_b64@),
        r matches Err(e) ==> e == CryptoError::InvalidKey,
        r matches Ok(t) ==> wraps_key_for(
            t.0@,
            t.1@,
            t.2@,
            receiver_public_key_b64@,
            key_to_wrap@,
        ) && t.2@ == b64_of(nonce@) && b64_dec_of(t.2@) == Some(nonce@),
{
    let receiver_pub = match b64_decode(receiver_public_key_b64) {
        Some(v) => v,
        None => {
            return Err(CryptoError::InvalidKey);
        },
    };
    if receiver_pub.len() != DH_KEY_LEN {
        return Err(CryptoError::InvalidKey);
    }
    let eph_sk = random_bytes(DH_KEY_LEN);
    let eph_pub = dh_public_key(eph_sk.as_slice());
    let shared = x25519_agree(eph_sk.as_slice(), receiver_pub.as_slice());
    let wrap_key = sha256(shared.as_slice());
    let wrapped = aead_seal(wrap_key.as_slice(), nonce, key_to_wrap.as_slice());
    let wrapped_b64 = b64_encode(wrapped.as_slice());
    let eph_pub_b64 = b64_encode(eph_pub.as_slice());
    let nonce_b64 = b64_encode(nonce);
    proof {
        assert forall|sk_b64: Seq<char>|
            #[trigger] private_key_matches(sk_b64, receiver_public_key_b64@) implies key_unwrapping(
            wrapped_b64@,
            eph_pub_b64@,
            nonce_b64@,
            sk_b64,
        ) == Ok::<_, CryptoError>(key_to_wrap@) by {
            let sk = choose|sk: Seq<u8>|
                #[trigger] b64_dec_of(sk_b64) == Some(sk) && sk.len() == DH_KEY_LEN && b64_dec_of(
                    receiver_public_key_b64@,
                ) == Some(public_of(sk)) && public_of(sk).len() == DH_KEY_LEN;
            assert(receiver_pub@ == public_of(sk));
            assert(shared@ == dh_of(sk, dh_of(eph_sk@, crate::dh::spec_base_point())));
            assert(dh_of(sk, eph_pub@) == shared@);
        }
    }
    Ok((wrapped_b64, eph_pub_b64, nonce_b64))
}

/// Wraps a 32-byte symmetric key for the holder of a public key.
///
/// Returns the wrapped ciphertext, the single-use ephemeral public key the
/// recipient needs to redo the agreement, and the fresh wrap nonce, all
/// Base64. The postcondition carries the protocol's correctness: every
/// private key matching the recipient's public key unwraps the result to
/// exactly the wrapped key.
pub fn wrap_symmetric_key(key_to_wrap: &AeadKey, receiver_public_key_b64: &str) -> (r: Result<
    (String, String, String),
    CryptoError,
>)
    requires
        key_to_wrap.wf(),
    ensures
        r is Ok <==> valid_public_key_text(receiver_public_key_b64@),
        r matches Err(e) ==> e == CryptoError::InvalidKey,
        r matches Ok(t) ==> wraps_key_for(
            t.0@,
            t.1@,
            t.2@,
            receiver_public_key_b64@,
            key_to_wrap@,
        ),
{
    let nonce = random_bytes(NONCE_LEN);
    wrap_symmetric_key_with_nonce(key_to_wrap, receiver_public_key_b64, nonce.as_slice())
}

/// Unwraps a wrapped symmetric key with the recipient's private key; the
/// result is exactly what the unwrapping model assigns to the four texts.
pub fn unwrap_symmetric_key(
    wrapped_key_b64: &str,
    ephemeral_public_key_b64: &str,
    nonce_b64: &str,
    receiver_private_key_b64: &str,
) -> (r: Result<AeadKey, CryptoError>)
    ensures
        r matches Ok(k) ==> k.wf() && key_unwrapping(
            wrapped_key_b64@,
            ephemeral_public_key_b64@,
            nonce_b64@,
            receiver_private_key_b64@,
        ) == Ok::<_, CryptoError>(k@),
        r matches Err(e) ==> key_unwrapping(
            wrapped_key_b64@,
            ephemeral_public_key_b64@,
            nonce_b64@,
            receiver_private_key_b64@,
        ) == Err::<Seq<u8>, _>(e),
{
    let sk = match b64_decode(receiver_private_key_b64) {
        Some(v) => v,
        None => {
            return Err(CryptoError::InvalidKey);
        },
    };
    if sk.len() != DH_KEY_LEN {
        return Err(CryptoError::InvalidKey);
    }
    let eph_pub = match b64_decode(ephemeral_public_key_b64) {
        Some(v) => v,
        None => {
            return Err(CryptoError::InvalidKey);
        },
    };
    if eph_pub.len() != DH_KEY_LEN {
        return Err(CryptoError::InvalidKey);
    }
    let nonce = match b64_decode(nonce_b64) {
        Some(v) => v,
        None => {
            return Err(CryptoError::InvalidEncoding);
        },
    };
    if nonce.len() != NONCE_LEN {
        return Err(CryptoError::InvalidEncoding);
    }
    let wrapped = match b64_decode(wrapped_key_b64) {
        Some(v) => v,
        None => {
            return Err(CryptoError::InvalidEncoding);
        },
    };
    let shared = x25519_agree(sk.as_slice(), eph_pub.as_slice());
    let wrap_key = sha256(shared.as_slice());
    let unwrapped = match aead_open(wrap_key.as_slice(), nonce.as_slice(), wrapped.as_slice()) {
        Some(v) => v,
        None => {
            return Err(CryptoError::DecryptionFailed);
        },
    };
    match AeadKey::from_bytes(unwrapped.as_slice()) {
        Ok(k) => Ok(k),
        Err(_) => Err(CryptoError::DecryptionFailed),
    }
}

} // verus!
