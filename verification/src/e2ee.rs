//! The end-to-end encryption facade: encrypt once, deliver to many.
//!
//! One call draws a fresh symmetric key and a fresh nonce, seals the payload
//! once, and wraps the key once per recipient. Every envelope of the call
//! shares that one nonce as its `iv`, so the envelope alone carries what its
//! owner needs to decrypt the payload. If any recipient's public key is
//! unusable the whole call fails: a silently dropped recipient would be
//! worse than an error.

use vstd::prelude::*;
use vstd::utf8::encode_utf8;

use crate::aead::{fits_payload, KEY_LEN};
use crate::cipher::{bytes_decryption, decrypt_message, message_decryption, seal_to_b64};
use crate::encoding::{b64_dec_of, b64_of};
use crate::envelope::{
    key_unwrapping, unwrap_symmetric_key, valid_public_key_text, wrap_symmetric_key,
    wrap_symmetric_key_with_nonce, wraps_key_for,
};
use crate::error::CryptoError;
use crate::keys::{generate_message_encryption_key, private_key_matches};
use crate::rng::{random_bytes, NONCE_LEN};
use crate::types::Envelope;

verus! {

/// What decrypting a message through an envelope yields: unwrap the message
/// key with the private key, then decrypt the ciphertext, taking the
/// envelope's `iv` as the message nonce.
pub open spec fn envelope_message_decryption(
    ct_b64: Seq<char>,
    env: Envelope,
    sk_b64: Seq<char>,
) -> Result<Seq<char>, CryptoError> {
    match key_unwrapping(env.key@, env.ephem_pub_key@, env.iv@, sk_b64) {
        Err(e) => Err(e),
        Ok(mk) => message_decryption(mk, ct_b64, env.iv@),
    }
}

/// What decrypting file bytes through an envelope yields, with the file
/// nonce carried separately.
pub open spec fn envelope_file_decryption(
    ct_b64: Seq<char>,
    nonce_b64: Seq<char>,
    env: Envelope,
    sk_b64: Seq<char>,
) -> Result<Seq<u8>, CryptoError> {
    match key_unwrapping(env.key@, env.ephem_pub_key@, env.iv@, sk_b64) {
        Err(e) => Err(e),
        Ok(fk) => bytes_decryption(fk, ct_b64, nonce_b64),
    }
}

/// Every recipient's public-key text is the canonical encoding of a 32-byte
/// key.
pub open spec fn all_public_keys_valid(recipients: Seq<(i64, String)>) -> bool {
    forall|i: int|
        0 <= i < recipients.len() ==> valid_public_key_text(#[trigger] recipients[i].1@)
}

/// Every envelope wraps the same key `mk`, each for its own recipient.
pub open spec fn envelopes_wrap_one_key(
    envs: Seq<(i64, Envelope)>,
    recipients: Seq<(i64, String)>,
    mk: Seq<u8>,
) -> bool {
    forall|i: int|
        0 <= i < envs.len() ==> wraps_key_for(
            (#[trigger] envs[i]).1.key@,
            envs[i].1.ephem_pub_key@,
            envs[i].1.iv@,
            recipients[i].1@,
            mk,
        )
}

/// Encrypts one message for any number of recipients.
///
/// Returns the single Base64 ciphertext and one envelope per recipient, in
/// the recipients' order and under their identifiers. Every holder of a
/// private key matching a listed public key decrypts, through their own
/// envelope, to exactly the original message; nobody is served a different
/// plaintext and no recipient is silently dropped.
#[verifier::loop_isolation(false)]
pub fn encrypt_message_for_recipients(
    message: &str,
    recipient_public_keys: &Vec<(i64, String)>,
) -> (r: Result<(String, Vec<(i64, Envelope)>), CryptoError>)
    requires
        fits_payload(encode_utf8(message@).len()),
    ensures
        r is Ok <==> all_public_keys_valid(recipient_public_keys@),
        r matches Err(e) ==> e == CryptoError::InvalidKey,
        r matches Ok(t) ==> {
            &&& t.1@.len() == recipient_public_keys@.len()
            &&& forall|i: int|
                0 <= i < t.1@.len() ==> (#[trigger] t.1@[i]).0 == recipient_public_keys@[i].0
            &&& exists|mk: Seq<u8>|
                mk.len() == KEY_LEN && #[trigger] envelopes_wrap_one_key(
                    t.1@,
                    recipient_public_keys@,
                    mk,
                )
            &&& forall|i: int, skb: Seq<char>|
                0 <= i < t.1@.len() && #[trigger] private_key_matches(
                    skb,
                    recipient_public_keys@[i].1@,
                ) ==> envelope_message_decryption(t.0@, t.1@[i].1, skb) == Ok::<_, CryptoError>(
                    message@,
                )
        },
{
    let message_key = generate_message_encryption_key();
    let nonce = random_bytes(NONCE_LEN);
    let ciphertext = seal_to_b64(message_key.as_slice(), nonce.as_slice(), message.as_bytes());
    let mut envelopes: Vec<(i64, Envelope)> = Vec::new();
    let mut idx: usize = 0;
    while idx < recipient_public_keys.len()
        invariant
            idx <= recipient_public_keys@.len(),
            envelopes@.len() == idx,
            forall|i: int|
                0 <= i < idx ==> valid_public_key_text(
                    (#[trigger] recipient_public_keys@[i]).1@,
                ),
            forall|i: int|
                0 <= i < idx ==> (#[trigger] envelopes@[i]).0 == recipient_public_keys@[i].0,
            forall|i: int|
                0 <= i < idx ==> (#[trigger] envelopes@[i]).1.iv@ == b64_of(nonce@) && b64_dec_of(
                    envelopes@[i].1.iv@,
                ) == Some(nonce@),
            envelopes_wrap_one_key(envelopes@, recipient_public_keys@, message_key@),
        decreases recipient_public_keys@.len() - idx,
    {
        let uid = recipient_public_keys[idx].0;
        let wrapped = wrap_symmetric_key_with_nonce(
            &message_key,
            recipient_public_keys[idx].1.as_str(),
            nonce.as_slice(),
        );
        match wrapped {
            Ok((key, ephem_pub_key, iv)) => {
                let env = Envelope { key, ephem_pub_key, iv };
                envelopes.push((uid, env));
            },
            Err(e) => {
                return Err(e);
            },
        }
        idx += 1;
    }
    proof {
        vstd::utf8::encode_utf8_valid_utf8(message@);
        vstd::utf8::encode_utf8_decode_utf8(message@);
        assert forall|i: int, skb: Seq<char>|
            0 <= i < envelopes@.len() && #[trigger] private_key_matches(
                skb,
                recipient_public_keys@[i].1@,
            ) implies envelope_message_decryption(ciphertext@, envelopes@[i].1, skb) == Ok::<
            _,
            CryptoError,
        >(message@) by {
            assert(wraps_key_for(
                envelopes@[i].1.key@,
                envelopes@[i].1.ephem_pub_key@,
                envelopes@[i].1.iv@,
                recipient_public_keys@[i].1@,
                message_key@,
            ));
        }
    }
    Ok((ciphertext, envelopes))
}

/// Decrypts a message with one envelope and the recipient's private key;
/// the result is exactly what the envelope-decryption model assigns.
pub fn decrypt_message_with_envelope(
    encrypted_message: &str,
    envelope: &Envelope,
    private_key_b64: &str,
) -> (r: Result<String, CryptoError>)
    ensures
        r matches Ok(m) ==> envelope_message_decryption(
            encrypted_message@,
            *envelope,
            private_key_b64@,
        ) == Ok::<_, CryptoError>(m@),
        r matches Err(e) ==> envelope_message_decryption(
            encrypted_message@,
            *envelope,
            private_key_b64@,
        ) == Err::<Seq<char>, _>(e),
{
    let message_key = match unwrap_symmetric_key(
        envelope.key.as_str(),
        envelope.ephem_pub_key.as_str(),
        envelope.iv.as_str(),
        private_key_b64,
    ) {
        Ok(k) => k,
        Err(e) => {
            return Err(e);
        },
    };
    decrypt_message(encrypted_message, envelope.iv.as_str(), &message_key)
}

/// Encrypts file bytes once for any number of recipients.
///
/// Returns the Base64 ciphertext, the file nonce, and one envelope per
/// recipient; filename and mimetype accompany the file unencrypted and do
/// not enter the ciphertext. The same guarantees hold as for messages.
#[verifier::loop_isolation(false)]
pub fn encrypt_file_for_recipients(
    file_data: &[u8],
    filename: &str,
    mimetype: &str,
    recipient_public_keys: &Vec<(i64, String)>,
) -> (r: Result<(String, String, Vec<(i64, Envelope)>), CryptoError>)
    requires
        fits_payload(file_data@.len()),
    ensures
        r is Ok <==> all_public_keys_valid(recipient_public_keys@),
        r matches Err(e) ==> e == CryptoError::InvalidKey,
        r matches Ok(t) ==> {
            &&& t.2@.len() == recipient_public_keys@.len()
            &&& forall|i: int|
                0 <= i < t.2@.len() ==> (#[trigger] t.2@[i]).0 == recipient_public_keys@[i].0
            &&& exists|fk: Seq<u8>|
                fk.len() == KEY_LEN && #[trigger] envelopes_wrap_one_key(
                    t.2@,
                    recipient_public_keys@,
                    fk,
                )
            &&& forall|i: int, skb: Seq<char>|
                0 <= i < t.2@.len() && #[trigger] private_key_matches(
                    skb,
                    recipient_public_keys@[i].1@,
                ) ==> envelope_file_decryption(t.0@, t.1@, t.2@[i].1, skb) == Ok::<_, CryptoError>(
                    file_data@,
                )
        },
{
    let file_key = generate_message_encryption_key();
    let encrypted_file = match crate::cipher::encrypt_file(file_data, filename, mimetype, &file_key)
    {
        Ok(ef) => ef,
        Err(e) => {
            return Err(e);
        },
    };
    let mut envelopes: Vec<(i64, Envelope)> = Vec::new();
    let mut idx: usize = 0;
    while idx < recipient_public_keys.len()
        invariant
            idx <= recipient_public_keys@.len(),
            envelopes@.len() == idx,
            forall|i: int|
                0 <= i < idx ==> valid_public_key_text(
                    (#[trigger] recipient_public_keys@[i]).1@,
                ),
            forall|i: int|
                0 <= i < idx ==> (#[trigger] envelopes@[i]).0 == recipient_public_keys@[i].0,
            envelopes_wrap_one_key(envelopes@, recipient_public_keys@, file_key@),
        decreases recipient_public_keys@.len() - idx,
    {
        let uid = recipient_public_keys[idx].0;
        let wrapped = wrap_symmetric_key(&file_key, recipient_public_keys[idx].1.as_str());
        match wrapped {
            Ok((key, ephem_pub_key, iv)) => {
                let env = Envelope { key, ephem_pub_key, iv };
                envelopes.push((uid, env));
            },
            Err(e) => {
                return Err(e);
            },
        }
        idx += 1;
    }
    proof {
        assert forall|i: int, skb: Seq<char>|
            0 <= i < envelopes@.len() && #[trigger] private_key_matches(
                skb,
                recipient_public_keys@[i].1@,
            ) implies envelope_file_decryption(
            encrypted_file.ciphertext@,
            encrypted_file.nonce@,
            envelopes@[i].1,
            skb,
        ) == Ok::<_, CryptoError>(file_data@) by {
            assert(wraps_key_for(
                envelopes@[i].1.key@,
                envelopes@[i].1.ephem_pub_key@,
                envelopes@[i].1.iv@,
                recipient_public_keys@[i].1@,
                file_key@,
            ));
        }
    }
    Ok((encrypted_file.ciphertext, encrypted_file.nonce, envelopes))
}

} // verus!
