//! Key derivation: a slow, salted derivation for passwords and a fast
//! one-way hash for arbitrary strings.

use vstd::prelude::*;
use vstd::utf8::encode_utf8;

use crate::encoding::{b64_decode, b64_dec_of};
use crate::error::CryptoError;
use crate::hashing::{pbkdf2_of, pbkdf2_sha256, sha256, sha256_of};
use crate::keys::AeadKey;
use crate::rng::SALT_LEN;

verus! {

/// PBKDF2 iteration count for password-derived keys: deliberately slow so
/// that guessing passwords stays expensive. Both devices of one user must
/// agree on it for re-derivation to work.
pub const PBKDF2_ROUNDS: u32 = 100000;

/// What password derivation yields for a password and a Base64 salt text:
/// the 32 derived bytes, or `InvalidSalt` when the text is not the canonical
/// encoding of exactly 16 bytes.
pub open spec fn password_derivation(pw: Seq<char>, salt_b64: Seq<char>) -> Result<
    Seq<u8>,
    CryptoError,
> {
    match b64_dec_of(salt_b64) {
        Option::None => Err(CryptoError::InvalidSalt),
        Option::Some(salt) => if salt.len() != SALT_LEN {
            Err(CryptoError::InvalidSalt)
        } else {
            Ok(pbkdf2_of(encode_utf8(pw), salt, PBKDF2_ROUNDS))
        },
    }
}

/// Derives a 32-byte key from a password and a Base64-encoded 16-byte salt.
///
/// Deterministic: the same password and salt always yield the same key, so a
/// user can re-derive a master key on a new device given the stored salt.
pub fn derive_key_from_password(password: &str, salt_b64: &str) -> (r: Result<
    AeadKey,
    CryptoError,
>)
    ensures
        r matches Ok(k) ==> k.wf() && password_derivation(password@, salt_b64@) == Ok::<
            _,
            CryptoError,
        >(k@),
        r matches Err(e) ==> password_derivation(password@, salt_b64@) == Err::<Seq<u8>, _>(e),
{
    let salt = match b64_decode(salt_b64) {
        Some(v) => v,
        None => {
            return Err(CryptoError::InvalidSalt);
        },
    };
    if salt.len() != SALT_LEN {
        return Err(CryptoError::InvalidSalt);
    }
    let derived = pbkdf2_sha256(password.as_bytes(), salt.as_slice(), PBKDF2_ROUNDS);
    match AeadKey::from_bytes(derived.as_slice()) {
        Ok(k) => Ok(k),
        Err(_) => Err(CryptoError::DerivationFailed),
    }
}

/// Determinism of password derivation: two keys derived from the same
/// password and salt text are the same key, so a user can re-derive a
/// master key on another device.
pub proof fn lemma_password_derivation_deterministic(
    pw: Seq<char>,
    salt_b64: Seq<char>,
    k1: Seq<u8>,
    k2: Seq<u8>,
)
    requires
        password_derivation(pw, salt_b64) == Ok::<_, CryptoError>(k1),
        password_derivation(pw, salt_b64) == Ok::<_, CryptoError>(k2),
    ensures
        k1 == k2,
{
}

/// What string derivation yields: the SHA-256 digest of the secret's UTF-8
/// bytes, used directly as the 32-byte key.
pub open spec fn string_derivation(secret: Seq<char>) -> Seq<u8> {
    sha256_of(encode_utf8(secret))
}

/// Derives a 32-byte key as the one-way hash of an arbitrary string.
///
/// No salt and no work factor: meant for deterministic shared-secret
/// scenarios, not for protecting user passwords.
pub fn derive_key_from_string(secret: &str) -> (r: Result<AeadKey, CryptoError>)
    ensures
        r matches Ok(k) ==> k.wf() && k@ == string_derivation(secret@),
        r is Ok,
{
    let digest = sha256(secret.as_bytes());
    match AeadKey::from_bytes(digest.as_slice()) {
        Ok(k) => Ok(k),
        Err(_) => Err(CryptoError::DerivationFailed),
    }
}

} // verus!
