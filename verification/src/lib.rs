//! Stateless password derivation for the Spectre (Master Password) algorithm,
//! version 3, and the site vault that carries per-site settings.
//!
//! Pipeline (identical for every purpose, only the scope/context/template vary):
//!   1. `master_key` = scrypt(master_password, salt = authScope|len|fullName)
//!   2. `site_key`   = HMAC-SHA256(master_key, purposeScope|len|site|counter[|len|context])
//!   3. `result`     = fill a template, selecting each char from its class by a seed byte
//!
//! The vault is encrypted at rest with a key derived from the master key
//! (HKDF-SHA256, then XChaCha20-Poly1305), and can be exported as a redacted
//! `.mpjson` document.

pub mod algorithm;
pub mod biometric;
pub mod crypto;
pub mod identity;
pub mod json;
pub mod models;
pub mod mpjson;
pub mod order;
pub mod primitives;
pub mod session;
pub mod text;

pub use algorithm::{
    Purpose, STATEFUL_CLASS, TYPE_BASIC, TYPE_LONG, TYPE_MAXIMUM, TYPE_MEDIUM, TYPE_NAME,
    TYPE_PHRASE, TYPE_PIN, TYPE_SHORT,
};
pub use crypto::{decrypt, encrypt, EncryptedFile, VaultError, NONCE_LEN};
pub use identity::{master_key, site_key, site_password, Identity, MASTER_KEY_LEN};
pub use models::{default_algorithm, default_counter, default_type, Site, User, Vault};
pub use mpjson::export_mpjson_string;
