//! Client-side end-to-end encryption engine for a multi-recipient messenger.
//!
//! A sender encrypts a message or file once under a fresh symmetric key and
//! delivers it to any number of recipients: the key itself is "wrapped" for
//! each recipient with an ephemeral Diffie-Hellman agreement against that
//! recipient's long-term public key, so no server ever sees plaintext or key
//! material in the clear.

pub mod aead;
pub mod chunks;
pub mod cipher;
pub mod dh;
pub mod e2ee;
pub mod encoding;
pub mod envelope;
pub mod error;
pub mod hashing;
pub mod kdf;
pub mod keys;
pub mod rng;
pub mod types;
pub mod wrapper;

pub use chunks::{decrypt_file_chunked, encrypt_file_chunked, EncryptedFileChunked};
pub use cipher::{
    decrypt_data, decrypt_file, decrypt_file_with_message, decrypt_message, encrypt_data,
    encrypt_file, encrypt_file_with_message, encrypt_message, DecryptedFileWithMessage,
    EncryptedFile, EncryptedFileWithMessage, EncryptedMessage,
};
pub use e2ee::{
    decrypt_message_with_envelope, encrypt_file_for_recipients, encrypt_message_for_recipients,
};
pub use envelope::{unwrap_symmetric_key, wrap_symmetric_key};
pub use error::CryptoError;
pub use kdf::{derive_key_from_password, derive_key_from_string};
pub use keys::{
    export_private_key_b64, export_public_key_b64, generate_key_pair,
    generate_message_encryption_key, import_private_key_b64, import_public_key_b64, AeadKey,
    KeyPair,
};
pub use rng::{generate_nonce, generate_salt};
pub use types::{
    Chat, CreateChatRequest, Envelope, FileMetadata, LoginRequest, LoginResponse, Message,
    PublicKeyResponse, RegisterRequest, UpdateUsernameRequest, UserResponse, VerifyRequest,
    VerifyResponse, WsEvent,
};
pub use wrapper::{
    decrypt_message_with_secret, decrypt_text_with_secret, derive_master_key_b64_from_password,
    derive_master_key_from_password, encrypt_message_with_secret, encrypt_text_with_secret,
    unwrap_key_from_sender, wrap_key_for_receiver,
};
