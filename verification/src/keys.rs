//! Symmetric AEAD keys and asymmetric key-agreement key pairs.

use vstd::prelude::*;

use crate::aead::KEY_LEN;
use crate::dh::{dh_public_key, public_of, DH_KEY_LEN};
use crate::encoding::{b64_decode, b64_dec_of, b64_encode, b64_of};
use crate::error::CryptoError;
use crate::rng::random_bytes;

verus! {

/// A 256-bit symmetric key for the AEAD cipher.
///
/// Created by key derivation or fresh random generation; consumed by
/// encryption, decryption and key wrapping. It is never persisted in the
/// clear by this engine.
#[derive(Clone, Debug)]
pub struct AeadKey {
    bytes: Vec<u8>,
}

impl View for AeadKey {
    type V = Seq<u8>;

    closed spec fn view(&self) -> Seq<u8> {
        self.bytes@
    }
}

impl AeadKey {
    /// A well-formed key holds exactly 32 bytes.
    pub open spec fn wf(&self) -> bool {
        self@.len() == KEY_LEN
    }

    /// Takes 32 raw bytes as a key; refuses any other length.
    pub fn from_bytes(b: &[u8]) -> (r: Result<AeadKey, CryptoError>)
        ensures
            r is Ok <==> b@.len() == KEY_LEN,
            r matches Ok(k) ==> k@ == b@ && k.wf(),
            r matches Err(e) ==> e == CryptoError::InvalidKey,
    {
        if b.len() == KEY_LEN {
            Ok(AeadKey { bytes: vstd::slice::slice_to_vec(b) })
        } else {
            Err(CryptoError::InvalidKey)
        }
    }

    /// The key's raw 32 bytes.
    pub fn to_bytes(&self) -> (r: Vec<u8>)
        ensures
            r@ == self@,
    {
        self.bytes.clone()
    }

    /// Borrows the key's raw bytes.
    pub(crate) fn as_slice(&self) -> (r: &[u8])
        ensures
            r@ == self@,
    {
        self.bytes.as_slice()
    }
}

/// A fresh random 256-bit key for one message or file.
pub fn generate_message_encryption_key() -> (k: AeadKey)
    ensures
        k.wf(),
{
    AeadKey { bytes: random_bytes(KEY_LEN) }
}

/// Whether a private-key text decodes to the 32-byte secret whose public key
/// the given public-key text encodes.
pub open spec fn private_key_matches(sk_b64: Seq<char>, pub_b64: Seq<char>) -> bool {
    exists|sk: Seq<u8>|
        #[trigger] b64_dec_of(sk_b64) == Some(sk) && sk.len() == DH_KEY_LEN && b64_dec_of(pub_b64)
            == Some(public_of(sk)) && public_of(sk).len() == DH_KEY_LEN
}

/// A key-agreement key pair, both halves in canonical Base64.
///
/// The public key is shared with peers; the private key is the single secret
/// whose compromise breaks every envelope ever wrapped to it.
#[derive(Clone, Debug)]
pub struct KeyPair {
    pub public_key: String,
    pub private_key: String,
}

impl KeyPair {
    /// The two texts decode to a matching 32-byte key pair.
    pub open spec fn wf(&self) -> bool {
        private_key_matches(self.private_key@, self.public_key@)
    }
}

/// A fresh key-agreement key pair.
///
/// The `extractable` flag is a platform hint only (whether a host keystore
/// may later export the private key); it has no bearing on the mathematics.
pub fn generate_key_pair(extractable: bool) -> (kp: KeyPair)
    ensures
        kp.wf(),
{
    let _ = extractable;
    let sk = random_bytes(DH_KEY_LEN);
    let pk = dh_public_key(sk.as_slice());
    let kp = KeyPair { public_key: b64_encode(pk.as_slice()), private_key: b64_encode(
        sk.as_slice(),
    ) };
    proof {
        assert(b64_dec_of(kp.private_key@) == Some(sk@) && sk@.len() == DH_KEY_LEN && b64_dec_of(
            kp.public_key@,
        ) == Some(public_of(sk@)) && public_of(sk@).len() == DH_KEY_LEN);
    }
    kp
}

/// Encodes a raw 32-byte public key canonically.
pub fn export_public_key_b64(pk: &[u8]) -> (r: Result<String, CryptoError>)
    ensures
        r is Ok <==> pk@.len() == DH_KEY_LEN,
        r matches Ok(s) ==> s@ == b64_of(pk@) && b64_dec_of(s@) == Some(pk@),
        r matches Err(e) ==> e == CryptoError::InvalidKey,
{
    if pk.len() == DH_KEY_LEN {
        Ok(b64_encode(pk))
    } else {
        Err(CryptoError::InvalidKey)
    }
}

/// Encodes a raw 32-byte private key canonically.
pub fn export_private_key_b64(sk: &[u8]) -> (r: Result<String, CryptoError>)
    ensures
        r is Ok <==> sk@.len() == DH_KEY_LEN,
        r matches Ok(s) ==> s@ == b64_of(sk@) && b64_dec_of(s@) == Some(sk@),
        r matches Err(e) ==> e == CryptoError::InvalidKey,
{
    if sk.len() == DH_KEY_LEN {
        Ok(b64_encode(sk))
    } else {
        Err(CryptoError::InvalidKey)
    }
}

/// Decodes a public-key text back to its raw 32 bytes; refuses malformed
/// text or any other decoded length.
pub fn import_public_key_b64(s: &str) -> (r: Result<Vec<u8>, CryptoError>)
    ensures
        r is Ok <==> (b64_dec_of(s@) matches Some(p) && p.len() == DH_KEY_LEN),
        r matches Ok(v) ==> b64_dec_of(s@) == Some(v@),
        r matches Err(e) ==> e == CryptoError::InvalidKey,
{
    match b64_decode(s) {
        Some(v) => {
            if v.len() == DH_KEY_LEN {
                Ok(v)
            } else {
                Err(CryptoError::InvalidKey)
            }
        },
        None => Err(CryptoError::InvalidKey),
    }
}

/// Decodes a private-key text back to its raw 32 bytes; refuses malformed
/// text or any other decoded length.
pub fn import_private_key_b64(s: &str) -> (r: Result<Vec<u8>, CryptoError>)
    ensures
        r is Ok <==> (b64_dec_of(s@) matches Some(p) && p.len() == DH_KEY_LEN),
        r matches Ok(v) ==> b64_dec_of(s@) == Some(v@),
        r matches Err(e) ==> e == CryptoError::InvalidKey,
{
    match b64_decode(s) {
        Some(v) => {
            if v.len() == DH_KEY_LEN {
                Ok(v)
            } else {
                Err(CryptoError::InvalidKey)
            }
        },
        None => Err(CryptoError::InvalidKey),
    }
}

} // verus!
