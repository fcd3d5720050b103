//! The chunking extension for large files.
//!
//! File bytes are split into fixed-size chunks, each sealed independently
//! with its own nonce under the same file key; the ordered nonce list and
//! the chunk size and count travel in the file's metadata, so any chunk can
//! be decrypted on its own once the key is unwrapped.

use vstd::prelude::*;

use crate::aead::fits_payload;
use crate::cipher::{bytes_decryption, seal_to_b64};
use crate::encoding::b64_encode;
use crate::error::CryptoError;
use crate::keys::AeadKey;
use crate::rng::{random_bytes, NONCE_LEN};

verus! {

/// An encrypted chunked file: one Base64 ciphertext and one Base64 nonce
/// per chunk, with the metadata a reader needs to reassemble it.
#[derive(Clone, Debug, PartialEq, Eq)]
pub struct EncryptedFileChunked {
    pub chunks: Vec<String>,
    pub nonces: Vec<String>,
    pub chunk_size: usize,
    pub chunk_count: usize,
    pub filename: String,
    pub mimetype: String,
    pub size: usize,
}

/// How many chunks a file of `len` bytes fills at `cs` bytes per chunk:
/// zero for an empty file, otherwise the last chunk may run short.
pub open spec fn spec_chunk_count(len: nat, cs: nat) -> nat
    decreases len,
{
    if cs == 0 {
        0
    } else if len == 0 {
        0
    } else if len <= cs {
        1
    } else {
        1 + spec_chunk_count((len - cs) as nat, cs)
    }
}

/// What decrypting the chunk lists from position `i` on yields: the
/// concatenation of the remaining chunks' plaintexts, or the first error.
pub open spec fn chunked_decryption_from(
    key: Seq<u8>,
    chunks: Seq<String>,
    nonces: Seq<String>,
    i: int,
) -> Result<Seq<u8>, CryptoError>
    decreases chunks.len() - i,
{
    if i < 0 || i >= chunks.len() || chunks.len() != nonces.len() {
        Ok(Seq::empty())
    } else {
        match bytes_decryption(key, chunks[i]@, nonces[i]@) {
            Err(e) => Err(e),
            Ok(pt) => match chunked_decryption_from(key, chunks, nonces, i + 1) {
                Err(e) => Err(e),
                Ok(rest) => Ok(pt + rest),
            },
        }
    }
}

/// What decrypting a whole chunked file yields: mismatched list lengths are
/// refused outright, otherwise the chunks' plaintexts in order.
pub open spec fn chunked_file_decryption(
    key: Seq<u8>,
    chunks: Seq<String>,
    nonces: Seq<String>,
) -> Result<Seq<u8>, CryptoError> {
    if chunks.len() != nonces.len() {
        Err(CryptoError::InvalidEncoding)
    } else {
        chunked_decryption_from(key, chunks, nonces, 0)
    }
}

/// Appending a chunk to both lists extends the decryption by that chunk's
/// plaintext.
proof fn lemma_chunked_push(
    key: Seq<u8>,
    chunks: Seq<String>,
    nonces: Seq<String>,
    ch: String,
    no: String,
    i: int,
)
    requires
        0 <= i <= chunks.len(),
        nonces.len() == chunks.len(),
    ensures
        chunked_decryption_from(key, chunks.push(ch), nonces.push(no), i) == (
        match chunked_decryption_from(key, chunks, nonces, i) {
            Ok(p) => match bytes_decryption(key, ch@, no@) {
                Ok(c) => Ok::<Seq<u8>, CryptoError>(p + c),
                Err(e) => Err(e),
            },
            Err(e) => Err(e),
        }),
    decreases chunks.len() - i,
{
    let pushed_c = chunks.push(ch);
    let pushed_n = nonces.push(no);
    if i == chunks.len() {
        assert(pushed_c[i] == ch && pushed_n[i] == no);
        match bytes_decryption(key, ch@, no@) {
            Ok(c) => {
                assert(chunked_decryption_from(key, pushed_c, pushed_n, i + 1) == Ok::<
                    Seq<u8>,
                    CryptoError,
                >(Seq::empty()));
                assert(c + Seq::<u8>::empty() =~= c);
                assert(Seq::<u8>::empty() + c =~= c);
            },
            Err(_) => {
            },
        }
    } else {
        assert(pushed_c[i] == chunks[i] && pushed_n[i] == nonces[i]);
        lemma_chunked_push(key, chunks, nonces, ch, no, i + 1);
        match bytes_decryption(key, chunks[i]@, nonces[i]@) {
            Ok(pt) => {
                match chunked_decryption_from(key, chunks, nonces, i + 1) {
                    Ok(rest) => {
                        match bytes_decryption(key, ch@, no@) {
                            Ok(c) => {
                                assert(pt + (rest + c) =~= (pt + rest) + c);
                            },
                            Err(_) => {
                            },
                        }
                    },
                    Err(_) => {
                    },
                }
            },
            Err(_) => {
            },
        }
    }
}

/// Splits a file into chunks of `chunk_size` bytes and seals each under its
/// own fresh nonce with the same key.
///
/// The postcondition carries the round trip: decrypting the returned lists
/// in order yields exactly the original bytes.
#[verifier::loop_isolation(false)]
pub fn encrypt_file_chunked(
    file_data: &[u8],
    filename: &str,
    mimetype: &str,
    chunk_size: usize,
    key: &AeadKey,
) -> (r: Result<EncryptedFileChunked, CryptoError>)
    requires
        key.wf(),
        chunk_size >= 1,
        fits_payload(chunk_size as nat),
    ensures
        r is Ok,
        r matches Ok(ef) ==> {
            &&& ef.chunks@.len() == ef.chunk_count
            &&& ef.nonces@.len() == ef.chunk_count
            &&& ef.chunk_count == spec_chunk_count(file_data@.len(), chunk_size as nat)
            &&& ef.chunk_size == chunk_size
            &&& ef.size == file_data@.len()
            &&& ef.filename@ == filename@
            &&& ef.mimetype@ == mimetype@
            &&& chunked_file_decryption(key@, ef.chunks@, ef.nonces@) == Ok::<_, CryptoError>(
                file_data@,
            )
        },
{
    let mut chunks: Vec<String> = Vec::new();
    let mut nonces: Vec<String> = Vec::new();
    let mut offset: usize = 0;
    proof {
        assert(Seq::<u8>::empty() =~= file_data@.take(0));
    }
    while offset < file_data.len()
        invariant
            offset <= file_data@.len(),
            chunks@.len() == nonces@.len(),
            chunks@.len() + spec_chunk_count((file_data@.len() - offset) as nat, chunk_size as nat)
                == spec_chunk_count(file_data@.len(), chunk_size as nat),
            chunked_file_decryption(key@, chunks@, nonces@) == Ok::<_, CryptoError>(
                file_data@.take(offset as int),
            ),
        decreases file_data@.len() - offset,
    {
        let end: usize = if file_data.len() - offset >= chunk_size {
            offset + chunk_size
        } else {
            file_data.len()
        };
        let part = vstd::slice::slice_subrange(file_data, offset, end);
        let nonce = random_bytes(NONCE_LEN);
        let sealed = seal_to_b64(key.as_slice(), nonce.as_slice(), part);
        let nonce_b64 = b64_encode(nonce.as_slice());
        proof {
            lemma_chunked_push(key@, chunks@, nonces@, sealed, nonce_b64, 0);
            assert(file_data@.take(offset as int) + part@ =~= file_data@.take(end as int));
        }
        chunks.push(sealed);
        nonces.push(nonce_b64);
        offset = end;
    }
    proof {
        assert(file_data@.take(offset as int) =~= file_data@);
    }
    let chunk_count = chunks.len();
    Ok(
        EncryptedFileChunked {
            chunks,
            nonces,
            chunk_size,
            chunk_count,
            filename: filename.to_owned(),
            mimetype: mimetype.to_owned(),
            size: file_data.len(),
        },
    )
}

/// Decrypts a chunked file back into one byte string; the result is exactly
/// what the chunked model assigns to the two lists.
#[verifier::loop_isolation(false)]
pub fn decrypt_file_chunked(chunks: &Vec<String>, nonces: &Vec<String>, key: &AeadKey) -> (r:
    Result<Vec<u8>, CryptoError>)
    requires
        key.wf(),
    ensures
        r matches Ok(v) ==> chunked_file_decryption(key@, chunks@, nonces@) == Ok::<_, CryptoError>(
            v@,
        ),
        r matches Err(e) ==> chunked_file_decryption(key@, chunks@, nonces@) == Err::<Seq<u8>, _>(
            e,
        ),
{
    if chunks.len() != nonces.len() {
        return Err(CryptoError::InvalidEncoding);
    }
    let mut out: Vec<u8> = Vec::new();
    let mut i: usize = 0;
    while i < chunks.len()
        invariant
            i <= chunks@.len(),
            chunked_decryption_from(key@, chunks@, nonces@, 0) == (
            match chunked_decryption_from(key@, chunks@, nonces@, i as int) {
                Ok(s) => Ok::<Seq<u8>, CryptoError>(out@ + s),
                Err(e) => Err(e),
            }),
        decreases chunks@.len() - i,
    {
        let mut pt = match crate::cipher::decrypt_file(
            chunks[i].as_str(),
            nonces[i].as_str(),
            key,
        ) {
            Ok(v) => v,
            Err(e) => {
                return Err(e);
            },
        };
        let ghost prev_out = out@;
        let ghost pt_view = pt@;
        out.append(&mut pt);
        proof {
            match chunked_decryption_from(key@, chunks@, nonces@, i + 1) {
                Ok(rest) => {
                    assert(prev_out + (pt_view + rest) =~= (prev_out + pt_view) + rest);
                },
                Err(_) => {
                },
            }
        }
        i += 1;
    }
    proof {
        assert(out@ + Seq::<u8>::empty() =~= out@);
    }
    Ok(out)
}

} // verus!
