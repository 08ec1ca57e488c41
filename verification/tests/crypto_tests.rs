//! The vault's at-rest encryption: key derivation, sealing and opening, and
//! every way opening a file can fail.

use base64::Engine;
use chacha20poly1305::aead::{Aead, KeyInit};
use spectre::crypto::{encrypt_with_nonce, VaultError};
use spectre::{decrypt, encrypt, EncryptedFile};

fn key() -> [u8; 64] {
    let mut k = [0u8; 64];
    for (i, b) in k.iter_mut().enumerate() {
        *b = i as u8;
    }
    k
}

fn reference_ciphertext(master: &[u8; 64], nonce: &[u8; 24], pt: &[u8]) -> Vec<u8> {
    let hk = hkdf::Hkdf::<sha2::Sha256>::new(None, master);
    let mut okm = [0u8; 32];
    hk.expand(b"spectre-upgrade.vault.v1", &mut okm).unwrap();
    let cipher = chacha20poly1305::XChaCha20Poly1305::new(chacha20poly1305::Key::from_slice(&okm));
    cipher.encrypt(chacha20poly1305::XNonce::from_slice(nonce), pt).unwrap()
}

#[test]
fn encryption_uses_hkdf_vault_key_and_xchacha() {
    let nonce = [5u8; 24];
    let pt = b"site list";
    let ct = encrypt_with_nonce(&key(), &nonce, pt);

    assert_eq!(ct, reference_ciphertext(&key(), &nonce, pt));
    assert_eq!(ct.len(), pt.len() + 16);
    assert_ne!(&ct[..pt.len()], &pt[..]);
}

#[test]
fn encrypt_then_decrypt_gives_plaintext_back() {
    let (nonce, ct) = encrypt(&key(), b"hello vault").unwrap();

    assert_eq!(decrypt(&key(), &nonce, &ct).unwrap(), b"hello vault");
    // Fresh nonces: two encryptions of one plaintext differ.
    let (nonce2, _) = encrypt(&key(), b"hello vault").unwrap();
    assert_ne!(nonce, nonce2);
}

#[test]
fn decrypt_rejects_bad_nonce_and_tampering() {
    let (nonce, mut ct) = encrypt(&key(), b"hello vault").unwrap();

    match decrypt(&key(), &nonce[..23], &ct) {
        Err(VaultError::Format(m)) => assert_eq!(m, "invalid nonce length"),
        other => panic!("unexpected {:?}", other),
    }
    ct[0] ^= 1;
    assert!(matches!(decrypt(&key(), &nonce, &ct), Err(VaultError::Decrypt)));
    let mut other = key();
    other[0] = 0xff;
    ct[0] ^= 1;
    assert!(matches!(decrypt(&other, &nonce, &ct), Err(VaultError::Decrypt)));
}

#[test]
fn sealed_file_carries_metadata_and_base64_fields() {
    let nonce = [9u8; 24];
    let file = EncryptedFile::seal_with_nonce(&key(), &nonce, b"{}");
    let b64 = base64::engine::general_purpose::STANDARD;

    assert_eq!(file.magic, "spectre-upgrade-vault");
    assert_eq!(file.version, 1);
    assert_eq!(file.cipher, "xchacha20poly1305");
    assert_eq!(file.kdf, "hkdf-sha256(scrypt-v3-masterkey)");
    assert_eq!(file.nonce, b64.encode(nonce));
    assert_eq!(file.ciphertext, b64.encode(reference_ciphertext(&key(), &nonce, b"{}")));
    assert_eq!(file.open(&key()).unwrap(), b"{}");
}

#[test]
fn opening_reports_each_failure() {
    let mut file = EncryptedFile::seal(&key(), b"payload").unwrap();

    file.magic = "something-else".to_string();
    match file.open(&key()) {
        Err(VaultError::Format(m)) => assert_eq!(m, "not a vault file (magic something-else)"),
        other => panic!("unexpected {:?}", other),
    }
    file.magic = "spectre-upgrade-vault".to_string();

    file.version = 2;
    match file.open(&key()) {
        Err(VaultError::Format(m)) => assert_eq!(m, "unsupported version 2"),
        other => panic!("unexpected {:?}", other),
    }
    file.version = 1;

    let good_nonce = file.nonce.clone();
    file.nonce = "not base64!".to_string();
    assert!(matches!(file.open(&key()), Err(VaultError::Base64(_))));

    file.nonce = base64::engine::general_purpose::STANDARD.encode([1u8; 12]);
    match file.open(&key()) {
        Err(VaultError::Format(m)) => assert_eq!(m, "invalid nonce length"),
        other => panic!("unexpected {:?}", other),
    }
    file.nonce = good_nonce;

    file.ciphertext.push('#');
    assert!(matches!(file.open(&key()), Err(VaultError::Base64(_))));
    file.ciphertext.pop();

    assert_eq!(file.open(&key()).unwrap(), b"payload");
}

#[test]
fn vault_key_is_hkdf_of_the_master_key() {
    let hk = hkdf::Hkdf::<sha2::Sha256>::new(None, &key());
    let mut okm = [0u8; 32];
    hk.expand(b"spectre-upgrade.vault.v1", &mut okm).unwrap();

    assert_eq!(spectre::crypto::derive_key(&key()), okm);
    assert_ne!(&spectre::crypto::derive_key(&key())[..], &key()[..32]);
}
