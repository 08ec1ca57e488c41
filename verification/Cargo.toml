[package]
name = "spectre"
version = "0.1.0"
edition = "2021"
publish = false

[dependencies]
hmac = "0.12"
sha2 = "0.10"
scrypt = { version = "0.11", default-features = false }
hkdf = "0.12"
chacha20poly1305 = "0.10"
getrandom = "0.2"
base64 = "0.22"
zeroize = "1"
serde = { version = "1", features = ["derive"] }
serde_json = "1"
thiserror = "1"
rpassword = "7"
