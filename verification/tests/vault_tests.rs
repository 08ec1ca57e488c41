//! The vault model, its at-rest encryption and the `.mpjson` export, on a
//! small synthetic fixture so the suite is hermetic.

use spectre::crypto::VaultError;
use spectre::{export_mpjson_string, master_key, EncryptedFile, Site, User, Vault};

const FIXTURE: &str = r#"{
  "user": {"full_name": "Robert Lee Mitchell", "algorithm": 3, "default_type": 17, "avatar": 0},
  "export": {"date": "2023-01-01T00:00:00Z", "redacted": true, "format": 1},
  "sites": {
    "github.com":     {"counter": 1, "algorithm": 3, "type": 17, "login_type": 0,  "uses": 5, "last_used": "2023-01-01T00:00:00Z"},
    "bank.example":   {"counter": 2, "algorithm": 3, "type": 16, "login_type": 30, "uses": 1, "last_used": "2023-01-02T00:00:00Z"},
    "stored.example": {"counter": 1, "algorithm": 3, "type": 1056, "login_type": 0, "uses": 0, "last_used": "", "password": "AAECAwQFBgcICQoLDA0ODw=="}
  }
}"#;

fn num(v: &serde_json::Value, key: &str, default: u64) -> u64 {
    v.get(key).and_then(|x| x.as_u64()).unwrap_or(default)
}

fn text(v: &serde_json::Value, key: &str) -> Option<String> {
    v.get(key).and_then(|x| x.as_str()).map(|s| s.to_string())
}

/// The fixture's user and sites, put into a vault through the library's own
/// calls.
fn vault_from(doc: &str) -> Vault {
    let root: serde_json::Value = serde_json::from_str(doc).unwrap();
    let u = &root["user"];
    let mut vault = Vault::new(User {
        full_name: text(u, "full_name").unwrap(),
        algorithm: num(u, "algorithm", 3) as u8,
        default_type: num(u, "default_type", 17) as u16,
        avatar: num(u, "avatar", 0) as u32,
    });
    for (name, s) in root["sites"].as_object().unwrap() {
        vault.insert_site(
            name.clone(),
            Site {
                counter: num(s, "counter", 1) as u32,
                algorithm: num(s, "algorithm", 3) as u8,
                type_code: num(s, "type", 17) as u16,
                login_type: num(s, "login_type", 0) as u16,
                uses: num(s, "uses", 0) as u32,
                last_used: text(s, "last_used").unwrap_or_default(),
                url: text(s, "url"),
                password: text(s, "password"),
                stored: text(s, "stored"),
            },
        );
    }
    vault
}

fn test_key() -> [u8; 64] {
    master_key("Robert Lee Mitchell", "banana colored duckling")
}

#[test]
fn detects_stateful_and_preserves_stored_value() {
    let vault = vault_from(FIXTURE);

    assert!(vault.site("stored.example").unwrap().is_stateful());
    assert!(!vault.site("github.com").unwrap().is_stateful());
    assert_eq!(
        vault.site("stored.example").unwrap().password.as_deref(),
        Some("AAECAwQFBgcICQoLDA0ODw==")
    );
}

#[test]
fn encrypt_round_trip_preserves_data() {
    let vault = vault_from(FIXTURE);
    let key = test_key();
    let plaintext = export_mpjson_string(&vault, "2023-01-01T00:00:00Z").into_bytes();

    let file = EncryptedFile::seal(&key, &plaintext).unwrap();
    let restored = file.open(&key).unwrap();

    assert_eq!(plaintext, restored);
}

#[test]
fn ciphertext_hides_site_names() {
    let vault = vault_from(FIXTURE);
    let plaintext = export_mpjson_string(&vault, "2023-01-01T00:00:00Z").into_bytes();
    let file = EncryptedFile::seal(&test_key(), &plaintext).unwrap();
    let on_disk = format!(
        "{} {} {} {} {} {}",
        file.magic, file.version, file.cipher, file.kdf, file.nonce, file.ciphertext
    );

    assert!(!on_disk.contains("github.com"));
    assert!(!on_disk.contains("bank.example"));
}

#[test]
fn wrong_key_fails_to_decrypt() {
    let vault = vault_from(FIXTURE);
    let plaintext = export_mpjson_string(&vault, "2023-01-01T00:00:00Z").into_bytes();
    let key = test_key();
    let file = EncryptedFile::seal(&key, &plaintext).unwrap();
    assert_eq!(file.open(&key).unwrap(), plaintext);

    // Another master key (deriving one costs seconds, so change one byte).
    let mut wrong = key;
    wrong[0] ^= 0x80;

    assert!(matches!(file.open(&wrong), Err(VaultError::Decrypt)));
}

#[test]
fn export_mpjson_round_trips_metadata() {
    let vault = vault_from(FIXTURE);
    let text = export_mpjson_string(&vault, "2026-09-13T00:00:00Z");
    let reimported = vault_from(&text);

    assert_eq!(reimported.len(), vault.len());

    for (name, s) in vault.sites() {
        let r = reimported.site(name).unwrap();

        assert_eq!(r.counter, s.counter);
        assert_eq!(r.type_code, s.type_code);
        assert_eq!(r.login_type, s.login_type);
        assert_eq!(r.uses, s.uses);
        assert_eq!(r.last_used, s.last_used);
    }

    // Redacted: no stored secret leaks into the export.
    assert!(!text.contains("AAECAwQFBgcICQoLDA0ODw=="));
}

#[test]
fn mark_used_bumps_counter_and_timestamp() {
    let mut vault = vault_from(FIXTURE);
    let before = vault.site("github.com").unwrap().uses;

    vault.mark_used("github.com", "2026-09-13T12:00:00Z");

    assert_eq!(vault.site("github.com").unwrap().uses, before + 1);
    assert_eq!(vault.site("github.com").unwrap().last_used, "2026-09-13T12:00:00Z");
}
