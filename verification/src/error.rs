//! Error kinds surfaced by the cryptographic engine.

use vstd::prelude::*;

verus! {

/// Why a cryptographic operation was refused or failed.
///
/// Authentication failures are deliberately not distinguished further:
/// a wrong key, a wrong nonce, a tampered ciphertext and a wrong-recipient
/// unwrap all surface as `DecryptionFailed`, so that callers cannot build a
/// decryption oracle out of the error detail.
#[derive(Clone, Copy, Debug, PartialEq, Eq, Structural)]
pub enum CryptoError {
    /// Malformed Base64, or a decoded nonce/key/ciphertext of the wrong length.
    InvalidEncoding,
    /// A salt that does not decode to the expected number of bytes.
    InvalidSalt,
    /// Key material that is structurally invalid (wrong length, bad encoding).
    InvalidKey,
    /// AEAD authentication failed.
    DecryptionFailed,
    /// The key-derivation function rejected its parameters.
    DerivationFailed,
}

impl CryptoError {
    /// A short, stable description of the error kind.
    pub fn describe(&self) -> (r: &'static str)
        ensures
            r@ == self.describe_spec(),
    {
        match self {
            CryptoError::InvalidEncoding => "invalid encoding",
            CryptoError::InvalidSalt => "invalid salt",
            CryptoError::InvalidKey => "invalid key",
            CryptoError::DecryptionFailed => "decryption failed",
            CryptoError::DerivationFailed => "derivation failed",
        }
    }

    /// What `describe` returns for each kind.
    pub open spec fn describe_spec(&self) -> Seq<char> {
        match self {
            CryptoError::InvalidEncoding => "invalid encoding"@,
            CryptoError::InvalidSalt => "invalid salt"@,
            CryptoError::InvalidKey => "invalid key"@,
            CryptoError::DecryptionFailed => "decryption failed"@,
            CryptoError::DerivationFailed => "derivation failed"@,
        }
    }
}

} // verus!
