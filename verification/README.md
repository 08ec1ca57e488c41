# spectre

Stateless password derivation for the Spectre / Master Password algorithm,
version 3, with a small encrypted site vault, written in Verus: every function
in `src/` carries a contract that Verus proves.

`master password + full name + site name + counter` go through scrypt, then
HMAC-SHA256, then a character template, and give the same password every
time. The vault holds per-site settings and a few stored values; it is
encrypted at rest (HKDF-SHA256 key, XChaCha20-Poly1305) and can be exported as
a redacted `.mpjson` document.

Layout:

- `src/algorithm.rs` – scopes, result templates, character classes, filling a
  template from a seed.
- `src/identity.rs` – salts, master key and site key, `Identity`.
- `src/models.rs`, `src/order.rs` – users, sites and the vault, kept in name
  order.
- `src/crypto.rs` – vault key, encryption and the encrypted file.
- `src/json.rs`, `src/mpjson.rs`, `src/text.rs` – the `.mpjson` export.
- `src/session.rs`, `src/biometric.rs` – the desktop app's command decisions
  and Touch ID answers.
- `src/primitives.rs` – the calls into scrypt, HMAC, HKDF, XChaCha20-Poly1305,
  base64, the system random number generator and zeroize, with what each
  promises.
- `app/` – the command-line tool, vault files and `.mpjson` import (serde), and
  the desktop command layer.
