//! One-way hashing and salted password derivation.

use vstd::prelude::*;

use sha2::Digest;

verus! {

/// The SHA-256 digest of a byte string: 32 bytes, a function of the input
/// alone.
pub uninterp spec fn sha256_of(b: Seq<u8>) -> Seq<u8>;

/// The 32-byte key that PBKDF2-HMAC-SHA-256 derives from a password, a salt
/// and a round count: a function of those three alone.
pub uninterp spec fn pbkdf2_of(pw: Seq<u8>, salt: Seq<u8>, rounds: u32) -> Seq<u8>;

/// Relies on `sha2::Sha256::digest`: the 32-byte SHA-256 digest of the input.
#[verifier::external_body]
pub(crate) fn sha256(b: &[u8]) -> (r: Vec<u8>)
    ensures
        r@ == sha256_of(b@),
        r@.len() == 32,
{
    sha2::Sha256::digest(b).to_vec()
}

/// Relies on `pbkdf2::pbkdf2_hmac::<Sha256>`: it fills the output buffer,
/// here 32 bytes, with a value determined by the password, salt and round
/// count alone.
#[verifier::external_body]
pub(crate) fn pbkdf2_sha256(pw: &[u8], salt: &[u8], rounds: u32) -> (r: Vec<u8>)
    requires
        rounds >= 1,
    ensures
        r@ == pbkdf2_of(pw@, salt@, rounds),
        r@.len() == 32,
{
    let mut out = [0u8; 32];
    pbkdf2::pbkdf2_hmac::<sha2::Sha256>(pw, salt, rounds, &mut out);
    out.to_vec()
}

} // verus!
