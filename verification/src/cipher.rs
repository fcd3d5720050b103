//! Authenticated encryption of messages and files, with the canonical
//! Base64 framing that carries them across the engine's boundary.
//!
//! Two framings exist. Messages and files travel as a ciphertext and a nonce
//! in two separate Base64 fields; the compact "data" framing prepends the
//! 12-byte nonce to the ciphertext and carries both in one Base64 text.

use vstd::prelude::*;
use vstd::utf8::{decode_utf8, encode_utf8, valid_utf8};

use crate::aead::{aead_open, aead_seal, dec_of, enc_of, fits_payload};
use crate::encoding::{b64_decode, b64_dec_of, b64_encode, b64_of};
use crate::error::CryptoError;
use crate::keys::AeadKey;
use crate::rng::{random_bytes, NONCE_LEN};

verus! {

/// An encrypted message: ciphertext (tag included) and nonce, both Base64.
#[derive(Clone, Debug, PartialEq, Eq)]
pub struct EncryptedMessage {
    pub ciphertext: String,
    pub nonce: String,
}

/// An encrypted file: ciphertext and nonce in Base64, with the filename and
/// mimetype carried alongside unencrypted.
#[derive(Clone, Debug, PartialEq, Eq)]
pub struct EncryptedFile {
    pub ciphertext: String,
    pub nonce: String,
    pub filename: String,
    pub mimetype: String,
}

/// A file and a message bound to the same key: the file in the compact
/// one-field framing, the message as ciphertext plus nonce, each under its
/// own independent nonce.
#[derive(Clone, Debug, PartialEq, Eq)]
pub struct EncryptedFileWithMessage {
    pub enc_file: String,
    pub ciphertext: String,
    pub nonce: String,
    pub filename: String,
    pub mimetype: String,
}

/// What decrypting a combined file-and-message yields.
#[derive(Clone, Debug, PartialEq, Eq)]
pub struct DecryptedFileWithMessage {
    pub file: Vec<u8>,
    pub message: String,
    pub filename: String,
    pub mimetype: String,
}

/// What decrypting a two-field ciphertext/nonce pair under a key yields:
/// the plaintext bytes, or the error that names the first step that failed.
pub open spec fn bytes_decryption(key: Seq<u8>, ct_b64: Seq<char>, nonce_b64: Seq<char>) -> Result<
    Seq<u8>,
    CryptoError,
> {
    match b64_dec_of(ct_b64) {
        Option::None => Err(CryptoError::InvalidEncoding),
        Option::Some(ct) => match b64_dec_of(nonce_b64) {
            Option::None => Err(CryptoError::InvalidEncoding),
            Option::Some(nonce) => if nonce.len() != NONCE_LEN {
                Err(CryptoError::InvalidEncoding)
            } else {
                match dec_of(key, nonce, ct) {
                    Option::None => Err(CryptoError::DecryptionFailed),
                    Option::Some(pt) => Ok(pt),
                }
            },
        },
    }
}

/// `bytes_decryption` followed by UTF-8 decoding of the plaintext.
pub open spec fn message_decryption(key: Seq<u8>, ct_b64: Seq<char>, nonce_b64: Seq<char>) -> Result<
    Seq<char>,
    CryptoError,
> {
    match bytes_decryption(key, ct_b64, nonce_b64) {
        Err(e) => Err(e),
        Ok(pt) => if valid_utf8(pt) {
            Ok(decode_utf8(pt))
        } else {
            Err(CryptoError::DecryptionFailed)
        },
    }
}

/// What decrypting the compact one-field framing yields: the Base64 text
/// holds the 12-byte nonce followed by the ciphertext.
pub open spec fn data_bytes_decryption(key: Seq<u8>, data_b64: Seq<char>) -> Result<
    Seq<u8>,
    CryptoError,
> {
    match b64_dec_of(data_b64) {
        Option::None => Err(CryptoError::InvalidEncoding),
        Option::Some(raw) => if raw.len() < NONCE_LEN {
            Err(CryptoError::InvalidEncoding)
        } else {
            match dec_of(key, raw.take(NONCE_LEN as int), raw.skip(NONCE_LEN as int)) {
                Option::None => Err(CryptoError::DecryptionFailed),
                Option::Some(pt) => Ok(pt),
            }
        },
    }
}

/// `data_bytes_decryption` followed by UTF-8 decoding of the plaintext.
pub open spec fn data_text_decryption(key: Seq<u8>, data_b64: Seq<char>) -> Result<
    Seq<char>,
    CryptoError,
> {
    match data_bytes_decryption(key, data_b64) {
        Err(e) => Err(e),
        Ok(pt) => if valid_utf8(pt) {
            Ok(decode_utf8(pt))
        } else {
            Err(CryptoError::DecryptionFailed)
        },
    }
}

/// Relies on `String::from_utf8`: it succeeds exactly on valid UTF-8 and
/// returns the string those bytes encode.
#[verifier::external_body]
fn string_from_utf8(v: Vec<u8>) -> (r: Option<String>)
    ensures
        r is Some <==> valid_utf8(v@),
        r matches Some(s) ==> encode_utf8(s@) == v@,
{
    String::from_utf8(v).ok()
}

/// Seals a payload and hands back the Base64 ciphertext text.
pub(crate) fn seal_to_b64(key: &[u8], nonce: &[u8], pt: &[u8]) -> (r: String)
    requires
        key@.len() == 32,
        nonce@.len() == NONCE_LEN,
        fits_payload(pt@.len()),
    ensures
        r@ == b64_of(enc_of(key@, nonce@, pt@)),
        b64_dec_of(r@) == Some(enc_of(key@, nonce@, pt@)),
        dec_of(key@, nonce@, enc_of(key@, nonce@, pt@)) == Some(pt@),
{
    let ct = aead_seal(key, nonce, pt);
    b64_encode(ct.as_slice())
}

/// Encrypts a text message under a fresh random nonce.
///
/// The postcondition carries the round trip: the returned pair decrypts,
/// under the same key, back to the message.
pub fn encrypt_message(message: &str, key: &AeadKey) -> (r: Result<EncryptedMessage, CryptoError>)
    requires
        key.wf(),
        fits_payload(encode_utf8(message@).len()),
    ensures
        r is Ok,
        r matches Ok(em) ==> message_decryption(key@, em.ciphertext@, em.nonce@) == Ok::<
            _,
            CryptoError,
        >(message@),
        r matches Ok(em) ==> exists|n: Seq<u8>|
            #![trigger b64_of(n)]
            n.len() == NONCE_LEN && em.nonce@ == b64_of(n) && em.ciphertext@ == b64_of(
                enc_of(key@, n, encode_utf8(message@)),
            ),
{
    let nonce = random_bytes(NONCE_LEN);
    let ciphertext = seal_to_b64(key.as_slice(), nonce.as_slice(), message.as_bytes());
    let nonce_b64 = b64_encode(nonce.as_slice());
    let em = EncryptedMessage { ciphertext, nonce: nonce_b64 };
    proof {
        vstd::utf8::encode_utf8_valid_utf8(message@);
        vstd::utf8::encode_utf8_decode_utf8(message@);
    }
    Ok(em)
}

/// Decrypts a two-field message pair; the result is exactly what the
/// decryption model assigns to the inputs.
pub fn decrypt_message(ciphertext_b64: &str, nonce_b64: &str, key: &AeadKey) -> (r: Result<
    String,
    CryptoError,
>)
    requires
        key.wf(),
    ensures
        r matches Ok(m) ==> message_decryption(key@, ciphertext_b64@, nonce_b64@) == Ok::<
            _,
            CryptoError,
        >(m@),
        r matches Err(e) ==> message_decryption(key@, ciphertext_b64@, nonce_b64@) == Err::<
            Seq<char>,
            _,
        >(e),
{
    let ct = match b64_decode(ciphertext_b64) {
        Some(v) => v,
        None => {
            return Err(CryptoError::InvalidEncoding);
        },
    };
    let nonce = match b64_decode(nonce_b64) {
        Some(v) => v,
        None => {
            return Err(CryptoError::InvalidEncoding);
        },
    };
    if nonce.len() != NONCE_LEN {
        return Err(CryptoError::InvalidEncoding);
    }
    let pt = match aead_open(key.as_slice(), nonce.as_slice(), ct.as_slice()) {
        Some(v) => v,
        None => {
            return Err(CryptoError::DecryptionFailed);
        },
    };
    let ghost pt_view = pt@;
    match string_from_utf8(pt) {
        Some(s) => {
            proof {
                vstd::utf8::encode_utf8_decode_utf8(s@);
            }
            Ok(s)
        },
        None => Err(CryptoError::DecryptionFailed),
    }
}

/// Encrypts a text in the compact framing: one Base64 text holding the
/// fresh nonce followed by the ciphertext.
pub fn encrypt_data(data: &str, key: &AeadKey) -> (r: Result<String, CryptoError>)
    requires
        key.wf(),
        fits_payload(encode_utf8(data@).len()),
    ensures
        r is Ok,
        r matches Ok(s) ==> data_text_decryption(key@, s@) == Ok::<_, CryptoError>(data@),
{
    let mut raw = random_bytes(NONCE_LEN);
    let ghost nonce_view = raw@;
    let mut ct = aead_seal(key.as_slice(), raw.as_slice(), data.as_bytes());
    let ghost ct_view = ct@;
    raw.append(&mut ct);
    let out = b64_encode(raw.as_slice());
    proof {
        assert(raw@.take(NONCE_LEN as int) =~= nonce_view);
        assert(raw@.skip(NONCE_LEN as int) =~= ct_view);
        vstd::utf8::encode_utf8_valid_utf8(data@);
        vstd::utf8::encode_utf8_decode_utf8(data@);
    }
    Ok(out)
}

/// Decrypts the compact framing; the result is exactly what the model
/// assigns to the inputs.
pub fn decrypt_data(data_b64: &str, key: &AeadKey) -> (r: Result<String, CryptoError>)
    requires
        key.wf(),
    ensures
        r matches Ok(m) ==> data_text_decryption(key@, data_b64@) == Ok::<_, CryptoError>(m@),
        r matches Err(e) ==> data_text_decryption(key@, data_b64@) == Err::<Seq<char>, _>(e),
{
    let raw = match b64_decode(data_b64) {
        Some(v) => v,
        None => {
            return Err(CryptoError::InvalidEncoding);
        },
    };
    if raw.len() < NONCE_LEN {
        return Err(CryptoError::InvalidEncoding);
    }
    let nonce = vstd::slice::slice_subrange(raw.as_slice(), 0, NONCE_LEN);
    let ct = vstd::slice::slice_subrange(raw.as_slice(), NONCE_LEN, raw.len());
    proof {
        assert(nonce@ =~= raw@.take(NONCE_LEN as int));
        assert(ct@ =~= raw@.skip(NONCE_LEN as int));
    }
    let pt = match aead_open(key.as_slice(), nonce, ct) {
        Some(v) => v,
        None => {
            return Err(CryptoError::DecryptionFailed);
        },
    };
    match string_from_utf8(pt) {
        Some(s) => {
            proof {
                vstd::utf8::encode_utf8_decode_utf8(s@);
            }
            Ok(s)
        },
        None => Err(CryptoError::DecryptionFailed),
    }
}

/// Encrypts file bytes under a fresh nonce; filename and mimetype are
/// carried alongside unencrypted.
pub fn encrypt_file(file_data: &[u8], filename: &str, mimetype: &str, key: &AeadKey) -> (r: Result<
    EncryptedFile,
    CryptoError,
>)
    requires
        key.wf(),
        fits_payload(file_data@.len()),
    ensures
        r is Ok,
        r matches Ok(ef) ==> bytes_decryption(key@, ef.ciphertext@, ef.nonce@) == Ok::<
            _,
            CryptoError,
        >(file_data@) && ef.filename@ == filename@ && ef.mimetype@ == mimetype@,
{
    let nonce = random_bytes(NONCE_LEN);
    let ciphertext = seal_to_b64(key.as_slice(), nonce.as_slice(), file_data);
    let nonce_b64 = b64_encode(nonce.as_slice());
    Ok(
        EncryptedFile {
            ciphertext,
            nonce: nonce_b64,
            filename: filename.to_owned(),
            mimetype: mimetype.to_owned(),
        },
    )
}

/// Decrypts file bytes from a two-field pair; the result is exactly what
/// the model assigns to the inputs.
pub fn decrypt_file(ciphertext_b64: &str, nonce_b64: &str, key: &AeadKey) -> (r: Result<
    Vec<u8>,
    CryptoError,
>)
    requires
        key.wf(),
    ensures
        r matches Ok(v) ==> bytes_decryption(key@, ciphertext_b64@, nonce_b64@) == Ok::<
            _,
            CryptoError,
        >(v@),
        r matches Err(e) ==> bytes_decryption(key@, ciphertext_b64@, nonce_b64@) == Err::<
            Seq<u8>,
            _,
        >(e),
{
    let ct = match b64_decode(ciphertext_b64) {
        Some(v) => v,
        None => {
            return Err(CryptoError::InvalidEncoding);
        },
    };
    let nonce = match b64_decode(nonce_b64) {
        Some(v) => v,
        None => {
            return Err(CryptoError::InvalidEncoding);
        },
    };
    if nonce.len() != NONCE_LEN {
        return Err(CryptoError::InvalidEncoding);
    }
    match aead_open(key.as_slice(), nonce.as_slice(), ct.as_slice()) {
        Some(v) => Ok(v),
        None => Err(CryptoError::DecryptionFailed),
    }
}

/// Encrypts a file and a message under the same key, each with its own
/// fresh nonce: the file in the compact framing, the message as a
/// ciphertext/nonce pair.
pub fn encrypt_file_with_message(
    file_data: &[u8],
    message: &str,
    key: &AeadKey,
    filename: &str,
    mimetype: &str,
) -> (r: Result<EncryptedFileWithMessage, CryptoError>)
    requires
        key.wf(),
        fits_payload(file_data@.len()),
        fits_payload(encode_utf8(message@).len()),
    ensures
        r is Ok,
        r matches Ok(e) ==> data_bytes_decryption(key@, e.enc_file@) == Ok::<_, CryptoError>(
            file_data@,
        ) && message_decryption(key@, e.ciphertext@, e.nonce@) == Ok::<_, CryptoError>(message@)
            && e.filename@ == filename@ && e.mimetype@ == mimetype@,
{
    let mut raw = random_bytes(NONCE_LEN);
    let ghost file_nonce_view = raw@;
    let mut file_ct = aead_seal(key.as_slice(), raw.as_slice(), file_data);
    let ghost file_ct_view = file_ct@;
    raw.append(&mut file_ct);
    let enc_file = b64_encode(raw.as_slice());
    proof {
        assert(raw@.take(NONCE_LEN as int) =~= file_nonce_view);
        assert(raw@.skip(NONCE_LEN as int) =~= file_ct_view);
    }
    let msg_nonce = random_bytes(NONCE_LEN);
    let ciphertext = seal_to_b64(key.as_slice(), msg_nonce.as_slice(), message.as_bytes());
    let nonce_b64 = b64_encode(msg_nonce.as_slice());
    proof {
        vstd::utf8::encode_utf8_valid_utf8(message@);
        vstd::utf8::encode_utf8_decode_utf8(message@);
    }
    Ok(
        EncryptedFileWithMessage {
            enc_file,
            ciphertext,
            nonce: nonce_b64,
            filename: filename.to_owned(),
            mimetype: mimetype.to_owned(),
        },
    )
}

/// What decrypting a combined file-and-message pair yields: file bytes and
/// message text, or the first error along the way.
pub open spec fn file_with_message_decryption(
    key: Seq<u8>,
    enc_file_b64: Seq<char>,
    ct_b64: Seq<char>,
    nonce_b64: Seq<char>,
) -> Result<(Seq<u8>, Seq<char>), CryptoError> {
    match data_bytes_decryption(key, enc_file_b64) {
        Err(e) => Err(e),
        Ok(f) => match message_decryption(key, ct_b64, nonce_b64) {
            Err(e) => Err(e),
            Ok(m) => Ok((f, m)),
        },
    }
}

/// Decrypts a combined file-and-message pair; filename and mimetype are
/// handed back unchanged.
pub fn decrypt_file_with_message(
    enc_file_b64: &str,
    ciphertext_b64: &str,
    nonce_b64: &str,
    key: &AeadKey,
    filename: &str,
    mimetype: &str,
) -> (r: Result<DecryptedFileWithMessage, CryptoError>)
    requires
        key.wf(),
    ensures
        r matches Ok(d) ==> file_with_message_decryption(
            key@,
            enc_file_b64@,
            ciphertext_b64@,
            nonce_b64@,
        ) == Ok::<_, CryptoError>((d.file@, d.message@)) && d.filename@ == filename@
            && d.mimetype@ == mimetype@,
        r matches Err(e) ==> file_with_message_decryption(
            key@,
            enc_file_b64@,
            ciphertext_b64@,
            nonce_b64@,
        ) == Err::<(Seq<u8>, Seq<char>), _>(e),
{
    let raw = match b64_decode(enc_file_b64) {
        Some(v) => v,
        None => {
            return Err(CryptoError::InvalidEncoding);
        },
    };
    if raw.len() < NONCE_LEN {
        return Err(CryptoError::InvalidEncoding);
    }
    let file_nonce = vstd::slice::slice_subrange(raw.as_slice(), 0, NONCE_LEN);
    let file_ct = vstd::slice::slice_subrange(raw.as_slice(), NONCE_LEN, raw.len());
    proof {
        assert(file_nonce@ =~= raw@.take(NONCE_LEN as int));
        assert(file_ct@ =~= raw@.skip(NONCE_LEN as int));
    }
    let file = match aead_open(key.as_slice(), file_nonce, file_ct) {
        Some(v) => v,
        None => {
            return Err(CryptoError::DecryptionFailed);
        },
    };
    let message = match decrypt_message(ciphertext_b64, nonce_b64, key) {
        Ok(m) => m,
        Err(e) => {
            return Err(e);
        },
    };
    Ok(
        DecryptedFileWithMessage {
            file,
            message,
            filename: filename.to_owned(),
            mimetype: mimetype.to_owned(),
        },
    )
}

} // verus!
