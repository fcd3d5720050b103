[package]
name = "ren_sdk"
version = "0.1.0"
edition = "2021"
publish = false

[dependencies]
base64 = "0.22"
chacha20poly1305 = "0.10"
x25519-dalek = "2"
sha2 = "0.10"
pbkdf2 = "0.12"
getrandom = "0.2"
serde = { version = "1", features = ["derive"] }
serde_json = "1"
thiserror = "1"
