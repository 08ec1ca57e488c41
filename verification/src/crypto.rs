//! At-rest encryption for the vault.
//!
//! The vault key is derived from the 64-byte master key via HKDF-SHA256 (a
//! distinct info string, so it never equals the master key itself), then used
//! with XChaCha20-Poly1305. A fresh 24-byte random nonce is drawn per write.

use vstd::prelude::*;
use vstd::utf8::*;

use crate::primitives::{
    base64_decode, base64_decode_standard, base64_encode, base64_encode_standard, hkdf_sha256,
    hkdf_sha256_key32, random_nonce24, xchacha20poly1305_decrypt, xchacha20poly1305_encrypt,
    xchacha20poly1305_open, xchacha20poly1305_seal,
};
use crate::text::{decimal, owned, push_decimal, push_str};

verus! {

/// `std::io::Error`, carried in the vault's error type.
#[verifier::external_type_specification]
#[verifier::external_body]
pub struct ExIoError(std::io::Error);

/// `serde_json::Error`, carried in the vault's error type.
#[verifier::external_type_specification]
#[verifier::external_body]
pub struct ExJsonError(serde_json::Error);

/// Errors from vault operations.
#[derive(Debug)]
pub enum VaultError {
    /// Reading or writing a file failed.
    Io(std::io::Error),
    /// A document was not the JSON it should be.
    Json(serde_json::Error),
    /// A field was not valid base64.
    Base64(base64::DecodeError),
    /// Decryption failed (wrong master password or corrupted vault).
    Decrypt,
    /// Not a vault file this version understands.
    Format(String),
    /// The system's random number generator was unavailable.
    Rng,
}

/// The kind of a vault error, with the message of a format error.
pub enum VaultFailure {
    Io,
    Json,
    Base64,
    Decrypt,
    Format(Seq<char>),
    Rng,
}

impl View for VaultError {
    type V = VaultFailure;

    open spec fn view(&self) -> VaultFailure {
        match self {
            VaultError::Io(_) => VaultFailure::Io,
            VaultError::Json(_) => VaultFailure::Json,
            VaultError::Base64(_) => VaultFailure::Base64,
            VaultError::Decrypt => VaultFailure::Decrypt,
            VaultError::Format(m) => VaultFailure::Format(m@),
            VaultError::Rng => VaultFailure::Rng,
        }
    }
}

/// The view of a byte result.
pub open spec fn bytes_result(r: Result<Vec<u8>, VaultError>) -> Result<Seq<u8>, VaultFailure> {
    match r {
        Ok(v) => Ok(v@),
        Err(e) => Err(e@),
    }
}

/// Length of the XChaCha20-Poly1305 nonce, in bytes.
pub const NONCE_LEN: usize = 24;

/// The HKDF info string that separates the vault key from the master key.
pub open spec fn hkdf_info() -> Seq<u8> {
    encode_utf8("spectre-upgrade.vault.v1"@)
}

/// The vault key of a master key.
pub open spec fn vault_key_of(master_key: Seq<u8>) -> Seq<u8> {
    hkdf_sha256(master_key, hkdf_info())
}

/// What decrypting gives: an error for a nonce of the wrong length, an
/// authentication failure, or the plaintext.
pub open spec fn decryption(master_key: Seq<u8>, nonce: Seq<u8>, ciphertext: Seq<u8>) -> Result<Seq<u8>, VaultFailure> {
    if nonce.len() != NONCE_LEN {
        Err(VaultFailure::Format("invalid nonce length"@))
    } else {
        match xchacha20poly1305_open(vault_key_of(master_key), nonce, ciphertext) {
            Some(p) => Ok(p),
            None => Err(VaultFailure::Decrypt),
        }
    }
}

/// The largest plaintext the vault encrypts: its ciphertext must stay within
/// what the cipher takes and what base64 can encode.
pub open spec fn plaintext_fits(len: nat) -> bool {
    len < 64 * 0xffff_ffff && len + 16 <= usize::MAX / 2
}

/// Whether a plaintext of this length can be encrypted (see
/// [`plaintext_fits`]).
pub fn plaintext_limit_ok(len: usize) -> (r: bool)
    ensures
        r == plaintext_fits(len as nat),
{
    (len as u64) < 64 * 0xffff_ffffu64 && len <= usize::MAX / 2 - 16
}

/// Derive the 32-byte vault key from the master key. Being 32 bytes long,
/// it never equals the 64-byte master key itself.
pub fn derive_key(master_key: &[u8; 64]) -> (key: [u8; 32])
    ensures
        key@ == vault_key_of(master_key@),
        key@ != master_key@,
{
    let key = hkdf_sha256_key32(master_key, "spectre-upgrade.vault.v1".as_bytes());
    assert(key@.len() != master_key@.len());
    key
}

/// Encrypt `plaintext` under a given nonce: the ciphertext (with tag), which
/// decrypts back to the plaintext under the same master key and nonce.
pub fn encrypt_with_nonce(master_key: &[u8; 64], nonce: &[u8; NONCE_LEN], plaintext: &[u8]) -> (ct: Vec<u8>)
    requires
        plaintext_fits(plaintext@.len()),
    ensures
        ct@ == xchacha20poly1305_seal(vault_key_of(master_key@), nonce@, plaintext@),
        ct@.len() == plaintext@.len() + 16,
        decryption(master_key@, nonce@, ct@) == Ok::<Seq<u8>, VaultFailure>(plaintext@),
{
    let key = derive_key(master_key);
    xchacha20poly1305_encrypt(&key, nonce, plaintext)
}

/// Encrypt `plaintext` under a fresh random nonce, returning the nonce and the
/// ciphertext (with tag); `Rng` when no random nonce can be drawn.
pub fn encrypt(master_key: &[u8; 64], plaintext: &[u8]) -> (r: Result<([u8; NONCE_LEN], Vec<u8>), VaultError>)
    requires
        plaintext_fits(plaintext@.len()),
    ensures
        match r {
            Ok((nonce, ct)) => {
                &&& ct@.len() == plaintext@.len() + 16
                &&& ct@ == xchacha20poly1305_seal(vault_key_of(master_key@), nonce@, plaintext@)
                &&& decryption(master_key@, nonce@, ct@) == Ok::<Seq<u8>, VaultFailure>(plaintext@)
            },
            Err(e) => e@ == VaultFailure::Rng,
        },
{
    match random_nonce24() {
        Some(nonce) => {
            let ct = encrypt_with_nonce(master_key, &nonce, plaintext);
            Ok((nonce, ct))
        },
        None => Err(VaultError::Rng),
    }
}

/// Decrypt ciphertext produced by [`encrypt`]. Returns [`VaultError::Decrypt`]
/// on a wrong key or tampered data.
pub fn decrypt(master_key: &[u8; 64], nonce_bytes: &[u8], ciphertext: &[u8]) -> (r: Result<Vec<u8>, VaultError>)
    ensures
        bytes_result(r) == decryption(master_key@, nonce_bytes@, ciphertext@),
{
    if nonce_bytes.len() != NONCE_LEN {
        return Err(VaultError::Format(owned("invalid nonce length")));
    }
    let key = derive_key(master_key);
    match xchacha20poly1305_decrypt(&key, nonce_bytes, ciphertext) {
        Some(p) => Ok(p),
        None => Err(VaultError::Decrypt),
    }
}

/// What an encrypted vault file holds.
pub struct EncryptedFileModel {
    pub magic: Seq<char>,
    pub version: u32,
    pub cipher: Seq<char>,
    pub kdf: Seq<char>,
    pub nonce: Seq<char>,
    pub ciphertext: Seq<char>,
}

/// The on-disk wrapper of an encrypted vault. Only non-secret metadata and the
/// base64 nonce and ciphertext are stored in the clear.
#[derive(Debug)]
pub struct EncryptedFile {
    pub magic: String,
    pub version: u32,
    pub cipher: String,
    pub kdf: String,
    pub nonce: String,
    pub ciphertext: String,
}

impl View for EncryptedFile {
    type V = EncryptedFileModel;

    open spec fn view(&self) -> EncryptedFileModel {
        EncryptedFileModel {
            magic: self.magic@,
            version: self.version,
            cipher: self.cipher@,
            kdf: self.kdf@,
            nonce: self.nonce@,
            ciphertext: self.ciphertext@,
        }
    }
}

/// The mark that starts every vault file.
pub open spec fn magic_text() -> Seq<char> {
    "spectre-upgrade-vault"@
}

/// The vault file format version.
pub const VERSION: u32 = 1;

/// The file that sealing a plaintext under a master key and nonce writes.
pub open spec fn sealed_file(master_key: Seq<u8>, nonce: Seq<u8>, plaintext: Seq<u8>) -> EncryptedFileModel {
    EncryptedFileModel {
        magic: magic_text(),
        version: VERSION,
        cipher: "xchacha20poly1305"@,
        kdf: "hkdf-sha256(scrypt-v3-masterkey)"@,
        nonce: base64_encode(nonce),
        ciphertext: base64_encode(xchacha20poly1305_seal(vault_key_of(master_key), nonce, plaintext)),
    }
}

/// What opening a vault file under a master key gives: the magic and version
/// are checked first, then the nonce and ciphertext are decoded from base64
/// and decrypted.
pub open spec fn opened(f: EncryptedFileModel, master_key: Seq<u8>) -> Result<Seq<u8>, VaultFailure> {
    if f.magic != magic_text() {
        Err(VaultFailure::Format("not a vault file (magic "@ + f.magic + ")"@))
    } else if f.version != VERSION {
        Err(VaultFailure::Format("unsupported version "@ + decimal(f.version as nat)))
    } else {
        match base64_decode(encode_utf8(f.nonce)) {
            None => Err(VaultFailure::Base64),
            Some(nonce) => match base64_decode(encode_utf8(f.ciphertext)) {
                None => Err(VaultFailure::Base64),
                Some(ct) => decryption(master_key, nonce, ct),
            },
        }
    }
}

impl EncryptedFile {
    /// The file for a nonce and the ciphertext sealed under it.
    fn from_parts(nonce: &[u8; NONCE_LEN], ciphertext: &[u8]) -> (f: EncryptedFile)
        requires
            ciphertext@.len() <= usize::MAX / 2,
        ensures
            f@.magic == magic_text(),
            f@.version == VERSION,
            f@.cipher == "xchacha20poly1305"@,
            f@.kdf == "hkdf-sha256(scrypt-v3-masterkey)"@,
            f@.nonce == base64_encode(nonce@),
            f@.ciphertext == base64_encode(ciphertext@),
            base64_decode(encode_utf8(f@.nonce)) == Some(nonce@),
            base64_decode(encode_utf8(f@.ciphertext)) == Some(ciphertext@),
    {
        EncryptedFile {
            magic: owned("spectre-upgrade-vault"),
            version: VERSION,
            cipher: owned("xchacha20poly1305"),
            kdf: owned("hkdf-sha256(scrypt-v3-masterkey)"),
            nonce: base64_encode_standard(nonce),
            ciphertext: base64_encode_standard(ciphertext),
        }
    }

    /// Seal a plaintext under a given nonce. The file opens, under the same
    /// master key, to the plaintext.
    pub fn seal_with_nonce(master_key: &[u8; 64], nonce: &[u8; NONCE_LEN], plaintext: &[u8]) -> (f: EncryptedFile)
        requires
            plaintext_fits(plaintext@.len()),
        ensures
            f@ == sealed_file(master_key@, nonce@, plaintext@),
            opened(f@, master_key@) == Ok::<Seq<u8>, VaultFailure>(plaintext@),
    {
        let ct = encrypt_with_nonce(master_key, nonce, plaintext);
        EncryptedFile::from_parts(nonce, ct.as_slice())
    }

    /// Serialize-side half of the vault file: encrypt the plaintext under a
    /// fresh random nonce and wrap it; `Rng` when no nonce can be drawn. The
    /// file opens, under the same master key, to the plaintext.
    pub fn seal(master_key: &[u8; 64], plaintext: &[u8]) -> (r: Result<EncryptedFile, VaultError>)
        requires
            plaintext_fits(plaintext@.len()),
        ensures
            match r {
                Ok(f) => {
                    &&& exists|nonce: Seq<u8>| nonce.len() == NONCE_LEN && f@ == sealed_file(master_key@, nonce, plaintext@)
                    &&& opened(f@, master_key@) == Ok::<Seq<u8>, VaultFailure>(plaintext@)
                },
                Err(e) => e@ == VaultFailure::Rng,
            },
    {
        let (nonce, ciphertext) = match encrypt(master_key, plaintext) {
            Ok(parts) => parts,
            Err(e) => return Err(e),
        };
        let f = EncryptedFile::from_parts(&nonce, ciphertext.as_slice());
        assert(nonce@.len() == NONCE_LEN && f@ == sealed_file(master_key@, nonce@, plaintext@));
        Ok(f)
    }

    /// Check and decrypt a vault file: the plaintext, or why it cannot be
    /// had.
    pub fn open(&self, master_key: &[u8; 64]) -> (r: Result<Vec<u8>, VaultError>)
        ensures
            bytes_result(r) == opened(self@, master_key@),
    {
        if !crate::order::names_equal(self.magic.as_str(), "spectre-upgrade-vault") {
            let mut msg = owned("not a vault file (magic ");
            push_str(&mut msg, self.magic.as_str());
            push_str(&mut msg, ")");
            return Err(VaultError::Format(msg));
        }
        if self.version != VERSION {
            let mut msg = owned("unsupported version ");
            push_decimal(&mut msg, self.version as u64);
            return Err(VaultError::Format(msg));
        }
        let nonce = match base64_decode_standard(self.nonce.as_str().as_bytes()) {
            Ok(n) => n,
            Err(e) => return Err(VaultError::Base64(e)),
        };
        let ciphertext = match base64_decode_standard(self.ciphertext.as_str().as_bytes()) {
            Ok(c) => c,
            Err(e) => return Err(VaultError::Base64(e)),
        };
        decrypt(master_key, nonce.as_slice(), ciphertext.as_slice())
    }
}

} // verus!

verus! {

/// The vault key is HKDF-SHA256 of the master key with no salt and the info
/// string "spectre-upgrade.vault.v1".
pub proof fn lemma_vault_key(master_key: Seq<u8>)
    ensures
        vault_key_of(master_key) == hkdf_sha256(master_key, encode_utf8("spectre-upgrade.vault.v1"@)),
{
}

/// A sealed vault file names the format ("spectre-upgrade-vault", version 1,
/// "xchacha20poly1305", "hkdf-sha256(scrypt-v3-masterkey)") and holds the
/// nonce and the XChaCha20-Poly1305 ciphertext under the vault key, both in
/// base64.
pub proof fn lemma_sealed_file(master_key: Seq<u8>, nonce: Seq<u8>, plaintext: Seq<u8>)
    ensures
        ({
            let f = sealed_file(master_key, nonce, plaintext);
            &&& f.magic == "spectre-upgrade-vault"@
            &&& f.version == 1
            &&& f.cipher == "xchacha20poly1305"@
            &&& f.kdf == "hkdf-sha256(scrypt-v3-masterkey)"@
            &&& f.nonce == base64_encode(nonce)
            &&& f.ciphertext == base64_encode(
                xchacha20poly1305_seal(
                    hkdf_sha256(master_key, encode_utf8("spectre-upgrade.vault.v1"@)),
                    nonce,
                    plaintext,
                ),
            )
        }),
{
}

/// Opening a vault file succeeds only for the mark "spectre-upgrade-vault",
/// version 1, base64 nonce and ciphertext, a 24-byte nonce and a ciphertext
/// that authenticates under the vault key, and then gives what decryption
/// gives. Otherwise it reports, in this order: the wrong mark, the wrong
/// version, bad base64, the nonce length, failed authentication.
pub proof fn lemma_opened(f: EncryptedFileModel, master_key: Seq<u8>)
    ensures
        f.magic != "spectre-upgrade-vault"@ ==> opened(f, master_key) == Err::<Seq<u8>, VaultFailure>(
            VaultFailure::Format("not a vault file (magic "@ + f.magic + ")"@),
        ),
        f.magic == "spectre-upgrade-vault"@ && f.version != 1 ==> opened(f, master_key) == Err::<
            Seq<u8>,
            VaultFailure,
        >(VaultFailure::Format("unsupported version "@ + decimal(f.version as nat))),
        f.magic == "spectre-upgrade-vault"@ && f.version == 1 && (base64_decode(encode_utf8(f.nonce)) is None
            || base64_decode(encode_utf8(f.ciphertext)) is None) ==> opened(f, master_key) == Err::<
            Seq<u8>,
            VaultFailure,
        >(VaultFailure::Base64),
        ({
            let dn = base64_decode(encode_utf8(f.nonce));
            let dc = base64_decode(encode_utf8(f.ciphertext));
            (f.magic == "spectre-upgrade-vault"@ && f.version == 1 && dn is Some && dc is Some) ==> opened(
                f,
                master_key,
            ) == if dn->0.len() != 24 {
                Err::<Seq<u8>, VaultFailure>(VaultFailure::Format("invalid nonce length"@))
            } else {
                match xchacha20poly1305_open(
                    hkdf_sha256(master_key, encode_utf8("spectre-upgrade.vault.v1"@)),
                    dn->0,
                    dc->0,
                ) {
                    Some(p) => Ok::<Seq<u8>, VaultFailure>(p),
                    None => Err::<Seq<u8>, VaultFailure>(VaultFailure::Decrypt),
                }
            }
        }),
{
}

/// Decryption takes only a 24-byte nonce, and then gives the plaintext
/// exactly when XChaCha20-Poly1305 under the vault key (HKDF-SHA256 of the
/// master key, info "spectre-upgrade.vault.v1") authenticates the ciphertext.
pub proof fn lemma_decryption(master_key: Seq<u8>, nonce: Seq<u8>, ciphertext: Seq<u8>)
    ensures
        nonce.len() != 24 ==> decryption(master_key, nonce, ciphertext) == Err::<Seq<u8>, VaultFailure>(
            VaultFailure::Format("invalid nonce length"@),
        ),
        nonce.len() == 24 ==> decryption(master_key, nonce, ciphertext) == match xchacha20poly1305_open(
            hkdf_sha256(master_key, encode_utf8("spectre-upgrade.vault.v1"@)),
            nonce,
            ciphertext,
        ) {
            Some(p) => Ok::<Seq<u8>, VaultFailure>(p),
            None => Err::<Seq<u8>, VaultFailure>(VaultFailure::Decrypt),
        },
{
}

} // verus!
