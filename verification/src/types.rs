//! Plain data shapes exchanged with the messenger's API and transport.
//!
//! The engine fills and reads these; (de)serialization to the wire lives
//! with the transport layer, outside the verified library.

use vstd::prelude::*;

use std::collections::HashMap;

verus! {

/// A per-recipient wrapped copy of a message or file key.
///
/// `iv` is the wrap nonce; when a message is encrypted for recipients in one
/// call it is also, by convention, the message's own decryption nonce —
/// every envelope of that call and the message share one nonce, each sealed
/// under its own key.
#[derive(Clone, Debug, PartialEq, Eq)]
pub struct Envelope {
    pub key: String,
    pub ephem_pub_key: String,
    pub iv: String,
}

/// Metadata carried alongside an encrypted file; chunked and non-chunked
/// files are told apart by `nonces`/`chunk_count` against a single `nonce`.
#[derive(Clone, Debug, PartialEq, Eq)]
pub struct FileMetadata {
    pub file_id: Option<i64>,
    pub filename: String,
    pub mimetype: String,
    pub size: i64,
    pub enc_file: Option<String>,
    pub nonce: Option<String>,
    pub file_creation_date: Option<String>,
    pub nonces: Option<Vec<String>>,
    pub chunk_size: Option<i64>,
    pub chunk_count: Option<i64>,
}

/// A chat message as the server stores it: ciphertext plus one envelope per
/// recipient.
#[derive(Clone, Debug, PartialEq, Eq)]
pub struct Message {
    pub id: i64,
    pub chat_id: i64,
    pub sender_id: i64,
    pub message: String,
    pub message_type: String,
    pub created_at: String,
    pub edited_at: Option<String>,
    pub is_read: bool,
    pub has_files: Option<bool>,
    pub metadata: Option<Vec<FileMetadata>>,
    pub envelopes: Option<HashMap<String, Envelope>>,
    pub status: Option<String>,
}

/// A chat as the directory lists it.
#[derive(Clone, Debug, PartialEq, Eq)]
pub struct Chat {
    pub id: i64,
    pub kind: String,
    pub title: Option<String>,
    pub created_at: String,
    pub updated_at: String,
    pub is_archived: Option<bool>,
    pub peer_avatar: Option<String>,
    pub peer_username: String,
}

/// A request to open a chat.
#[derive(Clone, Debug)]
pub struct CreateChatRequest {
    pub kind: String,
    pub title: Option<String>,
    pub user_ids: Vec<i64>,
}

/// A user as the directory returns it.
#[derive(Clone, Debug, PartialEq, Eq)]
pub struct UserResponse {
    pub id: i64,
    pub login: String,
    pub username: String,
    pub avatar: Option<String>,
}

/// A request to change the display name.
#[derive(Clone, Debug)]
pub struct UpdateUsernameRequest {
    pub username: String,
}

/// A user's canonical public key, as the directory hands it out.
#[derive(Clone, Debug)]
pub struct PublicKeyResponse {
    pub user_id: i64,
    pub public_key: String,
}

/// A successful authentication response.
#[derive(Clone, Debug, PartialEq, Eq)]
pub struct LoginResponse {
    pub message: String,
    pub user: UserResponse,
    pub token: String,
}

/// A registration request: the new account's public key travels in the
/// clear, with two wrapped copies of it for recovery.
#[derive(Clone, Debug, PartialEq, Eq)]
pub struct RegisterRequest {
    pub login: String,
    pub username: String,
    pub password: String,
    pub pkebymk: String,
    pub pkebyrk: String,
    pub salt: String,
    pub pk: String,
}

/// An authentication request.
#[derive(Clone, Debug, PartialEq, Eq)]
pub struct LoginRequest {
    pub login: String,
    pub password: String,
    pub remember_me: Option<bool>,
}

/// A token-verification request.
#[derive(Clone, Debug, PartialEq, Eq)]
pub struct VerifyRequest {
    pub token: String,
}

/// A token-verification response.
#[derive(Clone, Debug, PartialEq, Eq)]
pub struct VerifyResponse {
    pub user_id: i128,
}

/// Events exchanged over the live connection, in both directions.
#[derive(Clone, Debug)]
pub enum WsEvent {
    /// Initialize the connection with the user's contacts (client to server).
    Init { contacts: Vec<i64> },
    /// Join a chat (client to server).
    JoinChat { chat_id: i64 },
    /// Leave a chat (client to server).
    LeaveChat { chat_id: i64 },
    /// Typing indicator (client to server).
    Typing { chat_id: i64, is_typing: bool },
    /// Send a message with its envelopes (client to server).
    SendMessage {
        chat_id: i64,
        message: String,
        message_type: String,
        envelopes: HashMap<String, Envelope>,
        metadata: Option<Vec<FileMetadata>>,
    },
    /// Presence change (server to client).
    Presence { user_id: i64, status: String },
    /// A new message arrived (server to client).
    MessageNew { chat_id: i64, message: Message },
    /// Someone's typing state changed (server to client).
    TypingEvent { chat_id: i64, user_id: i64, is_typing: bool },
    /// Acknowledgement (server to client).
    Acknowledged,
    /// Error report (server to client).
    Error { error: String },
}

} // verus!
