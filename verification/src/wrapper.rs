//! Convenience operations that compose derivation, encryption and wrapping
//! into single calls.

use vstd::prelude::*;
use vstd::utf8::encode_utf8;

use crate::aead::fits_payload;
use crate::cipher::{decrypt_message, encrypt_message, message_decryption, EncryptedMessage};
use crate::encoding::{b64_dec_of, b64_of};
use crate::envelope::{
    key_unwrapping, unwrap_symmetric_key, valid_public_key_text, wrap_symmetric_key, wraps_key_for,
};
use crate::error::CryptoError;
use crate::kdf::{derive_key_from_password, derive_key_from_string, password_derivation,
    string_derivation};
use crate::keys::AeadKey;

verus! {

/// Encrypts a text message under the key derived from a secret string.
pub fn encrypt_message_with_secret(secret: &str, message: &str) -> (r: Result<
    EncryptedMessage,
    CryptoError,
>)
    requires
        fits_payload(encode_utf8(message@).len()),
    ensures
        r is Ok,
        r matches Ok(em) ==> message_decryption(
            string_derivation(secret@),
            em.ciphertext@,
            em.nonce@,
        ) == Ok::<_, CryptoError>(message@),
{
    let key = match derive_key_from_string(secret) {
        Ok(k) => k,
        Err(e) => {
            return Err(e);
        },
    };
    encrypt_message(message, &key)
}

/// Decrypts a message encrypted with `encrypt_message_with_secret`; the
/// result is exactly what the decryption model assigns under the derived
/// key.
pub fn decrypt_message_with_secret(secret: &str, ciphertext_b64: &str, nonce_b64: &str) -> (r:
    Result<String, CryptoError>)
    ensures
        r matches Ok(m) ==> message_decryption(
            string_derivation(secret@),
            ciphertext_b64@,
            nonce_b64@,
        ) == Ok::<_, CryptoError>(m@),
        r matches Err(e) ==> message_decryption(
            string_derivation(secret@),
            ciphertext_b64@,
            nonce_b64@,
        ) == Err::<Seq<char>, _>(e),
{
    let key = match derive_key_from_string(secret) {
        Ok(k) => k,
        Err(e) => {
            return Err(e);
        },
    };
    decrypt_message(ciphertext_b64, nonce_b64, &key)
}

/// Derives the 32-byte master key from a password and a Base64 16-byte
/// salt.
pub fn derive_master_key_from_password(password: &str, salt_b64: &str) -> (r: Result<
    AeadKey,
    CryptoError,
>)
    ensures
        r matches Ok(k) ==> k.wf() && password_derivation(password@, salt_b64@) == Ok::<
            _,
            CryptoError,
        >(k@),
        r matches Err(e) ==> password_derivation(password@, salt_b64@) == Err::<Seq<u8>, _>(e),
{
    derive_key_from_password(password, salt_b64)
}

/// Derives the master key and exports its raw 32 bytes as Base64.
pub fn derive_master_key_b64_from_password(password: &str, salt_b64: &str) -> (r: Result<
    String,
    CryptoError,
>)
    ensures
        r matches Ok(s) ==> (password_derivation(password@, salt_b64@) matches Ok(k) && s@
            == b64_of(k) && b64_dec_of(s@) == Some(k)),
        r matches Err(e) ==> password_derivation(password@, salt_b64@) == Err::<Seq<u8>, _>(e),
{
    let key = match derive_key_from_password(password, salt_b64) {
        Ok(k) => k,
        Err(e) => {
            return Err(e);
        },
    };
    let raw = key.to_bytes();
    Ok(crate::encoding::b64_encode(raw.as_slice()))
}

/// Wraps a symmetric key for a receiver; a composition-friendly alias of
/// `wrap_symmetric_key` with the same guarantees.
pub fn wrap_key_for_receiver(key_to_wrap: &AeadKey, receiver_public_key_b64: &str) -> (r: Result<
    (String, String, String),
    CryptoError,
>)
    requires
        key_to_wrap.wf(),
    ensures
        r is Ok <==> valid_public_key_text(receiver_public_key_b64@),
        r matches Err(e) ==> e == CryptoError::InvalidKey,
        r matches Ok(t) ==> wraps_key_for(
            t.0@,
            t.1@,
            t.2@,
            receiver_public_key_b64@,
            key_to_wrap@,
        ),
{
    wrap_symmetric_key(key_to_wrap, receiver_public_key_b64)
}

/// Unwraps a symmetric key received from a sender; an alias of
/// `unwrap_symmetric_key` with the same guarantees.
pub fn unwrap_key_from_sender(
    wrapped_b64: &str,
    eph_pub_b64: &str,
    nonce_b64: &str,
    receiver_priv_b64: &str,
) -> (r: Result<AeadKey, CryptoError>)
    ensures
        r matches Ok(k) ==> k.wf() && key_unwrapping(
            wrapped_b64@,
            eph_pub_b64@,
            nonce_b64@,
            receiver_priv_b64@,
        ) == Ok::<_, CryptoError>(k@),
        r matches Err(e) ==> key_unwrapping(
            wrapped_b64@,
            eph_pub_b64@,
            nonce_b64@,
            receiver_priv_b64@,
        ) == Err::<Seq<u8>, _>(e),
{
    unwrap_symmetric_key(wrapped_b64, eph_pub_b64, nonce_b64, receiver_priv_b64)
}

/// Encrypts a text with a key derived from a secret string; an alias of
/// `encrypt_message_with_secret`.
pub fn encrypt_text_with_secret(secret: &str, message: &str) -> (r: Result<
    EncryptedMessage,
    CryptoError,
>)
    requires
        fits_payload(encode_utf8(message@).len()),
    ensures
        r is Ok,
        r matches Ok(em) ==> message_decryption(
            string_derivation(secret@),
            em.ciphertext@,
            em.nonce@,
        ) == Ok::<_, CryptoError>(message@),
{
    encrypt_message_with_secret(secret, message)
}

/// Decrypts a text encrypted under a secret string; an alias of
/// `decrypt_message_with_secret`.
pub fn decrypt_text_with_secret(secret: &str, ciphertext_b64: &str, nonce_b64: &str) -> (r: Result<
    String,
    CryptoError,
>)
    ensures
        r matches Ok(m) ==> message_decryption(
            string_derivation(secret@),
            ciphertext_b64@,
            nonce_b64@,
        ) == Ok::<_, CryptoError>(m@),
        r matches Err(e) ==> message_decryption(
            string_derivation(secret@),
            ciphertext_b64@,
            nonce_b64@,
        ) == Err::<Seq<char>, _>(e),
{
    decrypt_message_with_secret(secret, ciphertext_b64, nonce_b64)
}

} // verus!
