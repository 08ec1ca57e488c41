//! The library's trusted boundary: each item here makes one call into std or
//! an outside crate, and states what that call's documentation or source
//! promises. Nothing in this file is proved.

use base64::Engine;
use chacha20poly1305::aead::{Aead, KeyInit};
use hmac::Mac;
use vstd::prelude::*;

verus! {

/// `String::push`: appends one character to the end of the string.
#[verifier::external_body]
pub(crate) fn push_char(s: &mut String, c: char)
    ensures
        final(s)@ == old(s)@.push(c),
{
    s.push(c);
}

} // verus!

verus! {

/// The HMAC-SHA256 tag of `message` under `key` (32 bytes).
pub uninterp spec fn hmac_sha256(key: Seq<u8>, message: Seq<u8>) -> Seq<u8>;

/// HMAC-SHA256 through `hmac::Hmac<sha2::Sha256>`: `new_from_slice` (which
/// accepts a key of any length), one `update` with the whole message, then
/// `finalize`. The contract claims only that the tag is the HMAC-SHA256 of
/// the message under the key; HMAC itself is not modelled.
#[verifier::external_body]
pub(crate) fn hmac_sha256_tag(key: &[u8], message: &[u8]) -> (tag: [u8; 32])
    ensures
        tag@ == hmac_sha256(key@, message@),
{
    let mut mac = <hmac::Hmac<sha2::Sha256> as Mac>::new_from_slice(key)
        .expect("HMAC accepts any key length");
    mac.update(message);
    mac.finalize().into_bytes().into()
}

/// The scrypt output of `len` bytes for a password, a salt and the cost
/// parameters `log_n`, `r`, `p`.
pub uninterp spec fn scrypt_output(
    password: Seq<u8>,
    salt: Seq<u8>,
    log_n: u8,
    r: u32,
    p: u32,
    len: usize,
) -> Seq<u8>;

/// `scrypt::scrypt` with `scrypt::Params::new(log_n, r, p, 64)` and a 64-byte
/// output buffer. The `requires` are the conditions under which
/// `Params::new` accepts the parameters (its source, `params.rs`); with them
/// and a 64-byte output `scrypt::scrypt` returns `Ok` (it allocates
/// N * r * 128 bytes of work memory). The contract claims only that the output
/// is the scrypt key of the arguments.
#[verifier::external_body]
pub(crate) fn scrypt_key64(password: &[u8], salt: &[u8], log_n: u8, r: u32, p: u32) -> (out: [u8; 64])
    requires
        0 < r,
        0 < p,
        log_n < 32,
        (log_n as int) < 16 * r,
        r * p < 0x4000_0000,
        vstd::arithmetic::power2::pow2(log_n as nat) * r * 128 <= usize::MAX,
        p * r * 128 <= usize::MAX,
    ensures
        out@ == scrypt_output(password@, salt@, log_n, r, p, 64),
{
    let params = scrypt::Params::new(log_n, r, p, 64).expect("parameters checked by the caller");
    let mut out = [0u8; 64];
    scrypt::scrypt(password, salt, &params, &mut out).expect("64 is a valid output length");
    out
}

/// `zeroize::Zeroize` for `Vec<u8>`: overwrites the bytes (and the spare
/// capacity) with zeros, then clears the vector. The contract states only
/// that the vector is left empty; the overwriting of the freed memory is not
/// stated.
#[verifier::external_body]
pub(crate) fn wipe_vec(buf: &mut Vec<u8>)
    ensures
        final(buf)@.len() == 0,
{
    zeroize::Zeroize::zeroize(buf);
}

} // verus!

verus! {

/// The HKDF-SHA256 output key material (32 bytes) for an input key and an
/// info string, with no salt.
pub uninterp spec fn hkdf_sha256(ikm: Seq<u8>, info: Seq<u8>) -> Seq<u8>;

/// `hkdf::Hkdf::<sha2::Sha256>::new(None, ikm)` followed by `expand(info, ..)`
/// into 32 bytes, which never fails (the limit is 255 * 32 bytes). The
/// contract claims only that the output is the HKDF-SHA256 key material.
#[verifier::external_body]
pub(crate) fn hkdf_sha256_key32(ikm: &[u8], info: &[u8]) -> (okm: [u8; 32])
    ensures
        okm@ == hkdf_sha256(ikm@, info@),
{
    let hk = hkdf::Hkdf::<sha2::Sha256>::new(None, ikm);
    let mut okm = [0u8; 32];
    hk.expand(info, &mut okm).expect("32 is a valid HKDF length");
    okm
}

/// The XChaCha20-Poly1305 ciphertext (with its 16-byte tag appended) of a
/// plaintext under a 32-byte key and a 24-byte nonce, with no associated data.
pub uninterp spec fn xchacha20poly1305_seal(key: Seq<u8>, nonce: Seq<u8>, plaintext: Seq<u8>) -> Seq<u8>;

/// The plaintext that XChaCha20-Poly1305 recovers from a ciphertext under a
/// key and a nonce; `None` when the tag does not authenticate.
pub uninterp spec fn xchacha20poly1305_open(key: Seq<u8>, nonce: Seq<u8>, ciphertext: Seq<u8>) -> Option<Seq<u8>>;

/// `XChaCha20Poly1305::new(key).encrypt(nonce, plaintext)` (`aead::Aead`).
/// It fails only when the plaintext reaches 64 * (2^32 - 1) bytes
/// (`chacha20poly1305/src/cipher.rs`), and its output buffer must fit in
/// `isize::MAX` bytes; `requires` rules both out. Claimed: the
/// result is the sealed text, the plaintext with a 16-byte tag appended (so
/// 16 bytes longer), and decrypting it under the same key and nonce gives the
/// plaintext back (AEAD correctness, as the crate's documentation shows).
#[verifier::external_body]
pub(crate) fn xchacha20poly1305_encrypt(key: &[u8; 32], nonce: &[u8], plaintext: &[u8]) -> (ct: Vec<u8>)
    requires
        nonce@.len() == 24,
        plaintext@.len() < 64 * 0xffff_ffff,
        plaintext@.len() + 16 <= isize::MAX,
    ensures
        ct@ == xchacha20poly1305_seal(key@, nonce@, plaintext@),
        ct@.len() == plaintext@.len() + 16,
        xchacha20poly1305_open(key@, nonce@, ct@) == Some(plaintext@),
{
    let cipher = chacha20poly1305::XChaCha20Poly1305::new(chacha20poly1305::Key::from_slice(key));
    cipher.encrypt(chacha20poly1305::XNonce::from_slice(nonce), plaintext).expect("plaintext length checked")
}

/// `XChaCha20Poly1305::new(key).decrypt(nonce, ciphertext)`: `Some` plaintext
/// exactly when the tag authenticates. A nonce of another length than 24
/// bytes would panic in `XNonce::from_slice`; `requires` rules it out. Claimed: the result is what
/// XChaCha20-Poly1305 opening gives.
#[verifier::external_body]
pub(crate) fn xchacha20poly1305_decrypt(key: &[u8; 32], nonce: &[u8], ciphertext: &[u8]) -> (pt: Option<Vec<u8>>)
    requires
        nonce@.len() == 24,
    ensures
        match pt {
            Some(v) => xchacha20poly1305_open(key@, nonce@, ciphertext@) == Some(v@),
            None => xchacha20poly1305_open(key@, nonce@, ciphertext@) is None,
        },
{
    let cipher = chacha20poly1305::XChaCha20Poly1305::new(chacha20poly1305::Key::from_slice(key));
    match cipher.decrypt(chacha20poly1305::XNonce::from_slice(nonce), ciphertext) {
        Ok(v) => Some(v),
        Err(_) => None,
    }
}

/// `getrandom::getrandom` filling 24 bytes from the system's random number
/// generator; `None` when the generator is unavailable. Nothing is claimed of
/// the bytes.
#[verifier::external_body]
pub(crate) fn random_nonce24() -> (r: Option<[u8; 24]>) {
    let mut nonce = [0u8; 24];
    match getrandom::getrandom(&mut nonce) {
        Ok(()) => Some(nonce),
        Err(_) => None,
    }
}

/// `base64::DecodeError`, carried in the vault's error type.
#[verifier::external_type_specification]
#[verifier::external_body]
pub struct ExDecodeError(base64::DecodeError);

/// The standard (padded) base64 text of a byte string.
pub uninterp spec fn base64_encode(bytes: Seq<u8>) -> Seq<char>;

/// The bytes standard (padded) base64 text decodes to; `None` when the text is
/// not valid base64.
pub uninterp spec fn base64_decode(text: Seq<u8>) -> Option<Seq<u8>>;

/// `base64::engine::general_purpose::STANDARD.encode(bytes)`. It panics only
/// when the encoded length overflows `usize` (4 * ceil(n / 3)), which
/// `requires` rules out. Claimed: the text is the base64 encoding, and decoding
/// its bytes gives the input back.
#[verifier::external_body]
pub(crate) fn base64_encode_standard(bytes: &[u8]) -> (text: String)
    requires
        bytes@.len() <= usize::MAX / 2,
    ensures
        text@ == base64_encode(bytes@),
        base64_decode(vstd::utf8::encode_utf8(text@)) == Some(bytes@),
{
    base64::engine::general_purpose::STANDARD.encode(bytes)
}

/// `base64::engine::general_purpose::STANDARD.decode(text)`. Claimed: `Ok`
/// exactly when the text is valid base64, with the decoded bytes.
#[verifier::external_body]
pub(crate) fn base64_decode_standard(text: &[u8]) -> (r: Result<Vec<u8>, base64::DecodeError>)
    ensures
        match r {
            Ok(v) => base64_decode(text@) == Some(v@),
            Err(_) => base64_decode(text@) is None,
        },
{
    base64::engine::general_purpose::STANDARD.decode(text)
}

} // verus!
