//! Master key and site key derivation, and the `Identity` that holds a master
//! key and derives site passwords, login names and security answers from it.

use vstd::prelude::*;
use vstd::utf8::*;

use crate::algorithm::{derive_result, derived_text, scope_text, Purpose, TYPE_PHRASE};
use crate::primitives::{hmac_sha256, hmac_sha256_tag, scrypt_key64, scrypt_output, wipe_vec};

verus! {

/// A big-endian `u32` as four bytes.
pub open spec fn be32(n: u32) -> Seq<u8> {
    seq![
        (n / 0x100_0000) as u8,
        ((n / 0x1_0000) % 0x100) as u8,
        ((n / 0x100) % 0x100) as u8,
        (n % 0x100) as u8,
    ]
}

/// A byte string behind its length as a big-endian `u32` (the length is taken
/// modulo 2^32, as the cast does).
pub open spec fn scoped(bytes: Seq<u8>) -> Seq<u8> {
    be32(bytes.len() as u32) + bytes
}

/// The bytes of a purpose's scope string.
pub open spec fn scope_bytes(p: Purpose) -> Seq<u8> {
    encode_utf8(scope_text(p))
}

/// The scrypt salt for a full name: the authentication scope, then the
/// length-prefixed UTF-8 name.
pub open spec fn master_salt(full_name: Seq<char>) -> Seq<u8> {
    scope_bytes(Purpose::Authentication) + scoped(encode_utf8(full_name))
}

/// The HMAC message for a site key: scope, length-prefixed site name, the
/// counter, and a length-prefixed context when one is given and non-empty.
pub open spec fn site_salt(
    purpose: Purpose,
    site: Seq<char>,
    counter: u32,
    context: Option<Seq<char>>,
) -> Seq<u8> {
    let base = scope_bytes(purpose) + scoped(encode_utf8(site)) + be32(counter);
    match context {
        Some(ctx) => if ctx.len() > 0 {
            base + scoped(encode_utf8(ctx))
        } else {
            base
        },
        None => base,
    }
}

/// scrypt parameters of algorithm v3: N = 2^15, r = 8, p = 2, 64-byte key.
pub const SCRYPT_LOG_N: u8 = 15;
pub const SCRYPT_R: u32 = 8;
pub const SCRYPT_P: u32 = 2;
pub const MASTER_KEY_LEN: usize = 64;

/// The master key of a full name and master password.
pub open spec fn master_key_of(full_name: Seq<char>, master_password: Seq<char>) -> Seq<u8> {
    scrypt_output(
        encode_utf8(master_password),
        master_salt(full_name),
        SCRYPT_LOG_N,
        SCRYPT_R,
        SCRYPT_P,
        MASTER_KEY_LEN,
    )
}

/// The site key (the seed of a result) for a master key and site settings.
pub open spec fn site_key_of(
    key: Seq<u8>,
    site: Seq<char>,
    counter: u32,
    purpose: Purpose,
    context: Option<Seq<char>>,
) -> Seq<u8> {
    hmac_sha256(key, site_salt(purpose, site, counter, context))
}

/// The view of an optional string slice.
pub open spec fn opt_str_view(o: Option<&str>) -> Option<Seq<char>> {
    match o {
        Some(s) => Some(s@),
        None => None,
    }
}

/// The view of an optional string.
pub open spec fn opt_string_view(o: Option<String>) -> Option<Seq<char>> {
    match o {
        Some(s) => Some(s@),
        None => None,
    }
}

/// Append a big-endian `u32`.
fn push_be32(buf: &mut Vec<u8>, n: u32)
    ensures
        final(buf)@ == old(buf)@ + be32(n),
{
    buf.push((n / 0x100_0000) as u8);
    buf.push(((n / 0x1_0000) % 0x100) as u8);
    buf.push(((n / 0x100) % 0x100) as u8);
    buf.push((n % 0x100) as u8);
    assert(buf@ =~= old(buf)@ + be32(n));
}

/// Append bytes as they are.
fn push_bytes(buf: &mut Vec<u8>, bytes: &[u8])
    ensures
        final(buf)@ == old(buf)@ + bytes@,
{
    buf.extend_from_slice(bytes);
    assert(buf@ =~= old(buf)@ + bytes@);
}

/// Append a big-endian u32 byte-length prefix followed by the UTF-8 bytes.
/// The length is the byte length, not the character count.
fn push_scoped(buf: &mut Vec<u8>, value: &str)
    ensures
        final(buf)@ == old(buf)@ + scoped(encode_utf8(value@)),
{
    let bytes = value.as_bytes();
    push_be32(buf, bytes.len() as u32);
    push_bytes(buf, bytes);
    assert(buf@ =~= old(buf)@ + scoped(encode_utf8(value@)));
}

/// Derive the 64-byte master key from a full name and master password.
///
/// The master key always uses the authentication scope, independent of the
/// purpose a later site key is derived for.
pub fn master_key(full_name: &str, master_password: &str) -> (key: [u8; MASTER_KEY_LEN])
    ensures
        key@ == master_key_of(full_name@, master_password@),
{
    let mut salt: Vec<u8> = Vec::new();
    push_bytes(&mut salt, Purpose::Authentication.scope().as_bytes());
    push_scoped(&mut salt, full_name);
    proof {
        assert(salt@ =~= master_salt(full_name@));
        vstd::arithmetic::power2::lemma2_to64();
    }
    let out = scrypt_key64(master_password.as_bytes(), salt.as_slice(), SCRYPT_LOG_N, SCRYPT_R, SCRYPT_P);
    wipe_vec(&mut salt);
    out
}

/// Derive the 32-byte site key for a given purpose and optional key context.
///
/// `context` is used for security answers (the question keyword); pass `None`
/// for the generic answer and for passwords/logins.
pub fn site_key(
    master_key: &[u8; MASTER_KEY_LEN],
    site_name: &str,
    counter: u32,
    purpose: Purpose,
    context: Option<&str>,
) -> (seed: [u8; 32])
    ensures
        seed@ == site_key_of(master_key@, site_name@, counter, purpose, opt_str_view(context)),
{
    let mut salt: Vec<u8> = Vec::new();
    push_bytes(&mut salt, purpose.scope().as_bytes());
    push_scoped(&mut salt, site_name);
    push_be32(&mut salt, counter);
    if let Some(ctx) = context {
        if !ctx.is_empty() {
            push_scoped(&mut salt, ctx);
        }
    }
    assert(salt@ =~= site_salt(purpose, site_name@, counter, opt_str_view(context)));
    let out = hmac_sha256_tag(master_key, salt.as_slice());
    wipe_vec(&mut salt);
    out
}

} // verus!

verus! {

/// What an identity holds: the full name and the 64-byte master key.
pub struct IdentityView {
    pub full_name: Seq<char>,
    pub key: Seq<u8>,
}

/// A user identity: the derived master key plus the full name. Construct once,
/// derive many. The key is zeroized on drop.
pub struct Identity {
    full_name: String,
    key: [u8; MASTER_KEY_LEN],
}

impl View for Identity {
    type V = IdentityView;

    closed spec fn view(&self) -> IdentityView {
        IdentityView { full_name: self.full_name@, key: self.key@ }
    }
}

/// The site password a master key derives (authentication scope).
pub open spec fn password_of(key: Seq<u8>, site: Seq<char>, counter: u32, type_code: u16) -> Option<Seq<char>> {
    derived_text(site_key_of(key, site, counter, Purpose::Authentication, None), type_code)
}

/// The generated login name a master key derives (identification scope,
/// counter 1).
pub open spec fn login_of(key: Seq<u8>, site: Seq<char>, type_code: u16) -> Option<Seq<char>> {
    derived_text(site_key_of(key, site, 1, Purpose::Identification, None), type_code)
}

/// The security answer a master key derives (recovery scope, counter 1, phrase
/// template); an empty question gives the generic answer.
pub open spec fn answer_of(key: Seq<u8>, site: Seq<char>, question: Seq<char>) -> Option<Seq<char>> {
    let context = if question.len() == 0 { None } else { Some(question) };
    derived_text(site_key_of(key, site, 1, Purpose::Recovery, context), TYPE_PHRASE)
}

impl Identity {
    /// Run scrypt once to derive the master key. This is the slow step;
    /// reuse the returned `Identity` for every site.
    pub fn new(full_name: &str, master_password: &str) -> (id: Identity)
        ensures
            id@.full_name == full_name@,
            id@.key == master_key_of(full_name@, master_password@),
    {
        Identity { full_name: String::from_str(full_name), key: master_key(full_name, master_password) }
    }

    /// An identity over a master key derived earlier with [`master_key`].
    pub fn from_master_key(full_name: &str, key: [u8; MASTER_KEY_LEN]) -> (id: Identity)
        ensures
            id@.full_name == full_name@,
            id@.key == key@,
    {
        Identity { full_name: String::from_str(full_name), key }
    }

    /// The full name this identity was created with.
    pub fn full_name(&self) -> (name: &str)
        ensures
            name@ == self@.full_name,
    {
        self.full_name.as_str()
    }

    /// Derive a site password (authentication scope). `None` for stateful types.
    pub fn password(&self, site: &str, counter: u32, type_code: u16) -> (r: Option<String>)
        ensures
            opt_string_view(r) == password_of(self@.key, site@, counter, type_code),
    {
        let seed = site_key(&self.key, site, counter, Purpose::Authentication, None);
        derive_result(&seed, type_code)
    }

    /// Derive a generated login name (identification scope, counter fixed at 1).
    /// Pass [`TYPE_NAME`] for the app default.
    pub fn login(&self, site: &str, type_code: u16) -> (r: Option<String>)
        ensures
            opt_string_view(r) == login_of(self@.key, site@, type_code),
    {
        let seed = site_key(&self.key, site, 1, Purpose::Identification, None);
        derive_result(&seed, type_code)
    }

    /// The standard login name: the user's full name, verbatim (not derived).
    pub fn standard_login(&self) -> (name: &str)
        ensures
            name@ == self@.full_name,
    {
        self.full_name.as_str()
    }

    /// Derive a security answer (recovery scope, counter fixed at 1, phrase
    /// template). An empty `question` yields the generic answer.
    pub fn answer(&self, site: &str, question: &str) -> (r: Option<String>)
        ensures
            opt_string_view(r) == answer_of(self@.key, site@, question@),
    {
        let context = if question.is_empty() { None } else { Some(question) };
        let seed = site_key(&self.key, site, 1, Purpose::Recovery, context);
        derive_result(&seed, TYPE_PHRASE)
    }
}

impl Drop for Identity {
    /// Zeroize the master key (`zeroize::Zeroize` on the key array).
    #[verifier::external_body]
    fn drop(&mut self)
        opens_invariants none
        no_unwind
    {
        zeroize::Zeroize::zeroize(&mut self.key);
    }
}

/// One-shot password derivation: the password that
/// `Identity::new(full_name, master_password).password(site, counter, type_code)`
/// gives. Prefer [`Identity`] when deriving for many sites.
pub fn site_password(
    full_name: &str,
    master_password: &str,
    site: &str,
    counter: u32,
    type_code: u16,
) -> (r: Option<String>)
    ensures
        opt_string_view(r) == password_of(master_key_of(full_name@, master_password@), site@, counter, type_code),
{
    Identity::new(full_name, master_password).password(site, counter, type_code)
}

} // verus!

verus! {

/// Four big-endian bytes determine the `u32` they encode.
pub proof fn lemma_be32_injective(a: u32, b: u32)
    ensures
        be32(a) == be32(b) ==> a == b,
{
    if be32(a) == be32(b) {
        assert(be32(a)[0] == be32(b)[0] && be32(a)[1] == be32(b)[1]);
        assert(be32(a)[2] == be32(b)[2] && be32(a)[3] == be32(b)[3]);
        assert(((a / 0x100_0000) as u8 == (b / 0x100_0000) as u8
            && ((a / 0x1_0000) % 0x100) as u8 == ((b / 0x1_0000) % 0x100) as u8
            && ((a / 0x100) % 0x100) as u8 == ((b / 0x100) % 0x100) as u8
            && (a % 0x100) as u8 == (b % 0x100) as u8) ==> a == b) by (bit_vector);
    }
}

/// The scope strings as bytes: each is ASCII, the authentication scope is a
/// prefix of the other two, which go on with `.login` and `.answer`.
proof fn lemma_scope_bytes()
    ensures
        scope_bytes(Purpose::Authentication).len() == 25,
        scope_bytes(Purpose::Identification).len() == 31,
        scope_bytes(Purpose::Recovery).len() == 32,
        scope_bytes(Purpose::Identification)[25] == 0x2e,
        scope_bytes(Purpose::Recovery)[25] == 0x2e,
        scope_bytes(Purpose::Identification)[26] == 0x6c,
        scope_bytes(Purpose::Recovery)[26] == 0x61,
{
    reveal_strlit("com.lyndir.masterpassword");
    reveal_strlit("com.lyndir.masterpassword.login");
    reveal_strlit("com.lyndir.masterpassword.answer");
    vstd::utf8::is_ascii_chars_encode_utf8(scope_text(Purpose::Authentication));
    vstd::utf8::is_ascii_chars_encode_utf8(scope_text(Purpose::Identification));
    vstd::utf8::is_ascii_chars_encode_utf8(scope_text(Purpose::Recovery));
    assert(scope_text(Purpose::Identification)[25] == '.');
    assert(scope_text(Purpose::Recovery)[25] == '.');
    assert(scope_text(Purpose::Identification)[26] == 'l');
    assert(scope_text(Purpose::Recovery)[26] == 'a');
}

/// Different counters give different HMAC messages for the same purpose, site
/// and context, so the counter selects a fresh password.
pub proof fn lemma_counter_separates(
    purpose: Purpose,
    site: Seq<char>,
    c1: u32,
    c2: u32,
    context: Option<Seq<char>>,
)
    requires
        c1 != c2,
    ensures
        site_salt(purpose, site, c1, context) != site_salt(purpose, site, c2, context),
{
    let prefix = scope_bytes(purpose) + scoped(encode_utf8(site));
    let s1 = site_salt(purpose, site, c1, context);
    let s2 = site_salt(purpose, site, c2, context);
    let n = prefix.len() as int;
    assert(s1.subrange(n, n + 4) =~= be32(c1));
    assert(s2.subrange(n, n + 4) =~= be32(c2));
    lemma_be32_injective(c1, c2);
}

/// Different purposes give different HMAC messages, so passwords, login names
/// and answers for one site are independent. The authentication message
/// starts with the site name's length; this holds when the top byte of that
/// length is not `.` (a name under 0x2E00_0000 bytes always qualifies).
pub proof fn lemma_purposes_separate(
    p1: Purpose,
    p2: Purpose,
    site1: Seq<char>,
    site2: Seq<char>,
    c1: u32,
    c2: u32,
    ctx1: Option<Seq<char>>,
    ctx2: Option<Seq<char>>,
)
    requires
        p1 != p2,
        p1 == Purpose::Authentication ==> (encode_utf8(site1).len() as u32) / 0x100_0000 != 0x2e,
        p2 == Purpose::Authentication ==> (encode_utf8(site2).len() as u32) / 0x100_0000 != 0x2e,
    ensures
        site_salt(p1, site1, c1, ctx1) != site_salt(p2, site2, c2, ctx2),
{
    lemma_scope_bytes();
    let s1 = site_salt(p1, site1, c1, ctx1);
    let s2 = site_salt(p2, site2, c2, ctx2);
    if p1 == Purpose::Authentication {
        assert(s1[25] == be32(encode_utf8(site1).len() as u32)[0]);
        assert(s2[25] == 0x2e);
    } else if p2 == Purpose::Authentication {
        assert(s2[25] == be32(encode_utf8(site2).len() as u32)[0]);
        assert(s1[25] == 0x2e);
    } else {
        assert(s1[26] != s2[26]);
    }
}

/// A security answer for a non-empty question comes from another HMAC message
/// than the generic answer for the same site.
pub proof fn lemma_question_separates(site: Seq<char>, question: Seq<char>)
    requires
        question.len() > 0,
    ensures
        site_salt(Purpose::Recovery, site, 1, Some(question)) != site_salt(Purpose::Recovery, site, 1, None),
{
    let s1 = site_salt(Purpose::Recovery, site, 1, Some(question));
    let s2 = site_salt(Purpose::Recovery, site, 1, None);
    assert(s1.len() > s2.len());
}

} // verus!

verus! {

/// `be32` is big-endian: four bytes, most significant first, whose weighted
/// sum is the number.
pub proof fn lemma_be32_big_endian(n: u32)
    ensures
        be32(n).len() == 4,
        n == be32(n)[0] * 0x100_0000 + be32(n)[1] * 0x1_0000 + be32(n)[2] * 0x100 + be32(n)[3],
{
    let q1 = n / 0x100;
    let q2 = n / 0x1_0000;
    let q3 = n / 0x100_0000;
    assert(q2 == q1 / 0x100);
    assert(q3 == q2 / 0x100);
    assert(q3 < 0x100);
    assert(n == q1 * 0x100 + n % 0x100);
    assert(q1 == q2 * 0x100 + q1 % 0x100);
    assert(q2 == q3 * 0x100 + q2 % 0x100);
}

/// The master key is scrypt (N = 2^15, r = 8, p = 2, 64 bytes) of the master
/// password's UTF-8 bytes, salted with the authentication scope
/// "com.lyndir.masterpassword", the full name's byte length (big-endian) and
/// the full name's bytes, whatever purpose a later key serves.
pub proof fn lemma_master_key_message(full_name: Seq<char>, master_password: Seq<char>)
    ensures
        master_key_of(full_name, master_password) == scrypt_output(
            encode_utf8(master_password),
            encode_utf8("com.lyndir.masterpassword"@) + be32(encode_utf8(full_name).len() as u32)
                + encode_utf8(full_name),
            15,
            8,
            2,
            64,
        ),
{
    assert(master_salt(full_name) =~= encode_utf8("com.lyndir.masterpassword"@) + be32(
        encode_utf8(full_name).len() as u32,
    ) + encode_utf8(full_name));
}

/// A site password is filled from the HMAC-SHA256, under the master key, of
/// the authentication scope "com.lyndir.masterpassword", the site's byte
/// length (big-endian), the site's bytes and the counter (big-endian).
pub proof fn lemma_password_message(key: Seq<u8>, site: Seq<char>, counter: u32, type_code: u16)
    ensures
        password_of(key, site, counter, type_code) == derived_text(
            hmac_sha256(
                key,
                encode_utf8("com.lyndir.masterpassword"@) + be32(encode_utf8(site).len() as u32)
                    + encode_utf8(site) + be32(counter),
            ),
            type_code,
        ),
{
    assert(site_salt(Purpose::Authentication, site, counter, None) =~= encode_utf8(
        "com.lyndir.masterpassword"@,
    ) + be32(encode_utf8(site).len() as u32) + encode_utf8(site) + be32(counter));
}

/// A generated login name is filled from the HMAC-SHA256, under the master
/// key, of the identification scope "com.lyndir.masterpassword.login", the
/// site's byte length (big-endian), the site's bytes and the counter 1.
pub proof fn lemma_login_message(key: Seq<u8>, site: Seq<char>, type_code: u16)
    ensures
        login_of(key, site, type_code) == derived_text(
            hmac_sha256(
                key,
                encode_utf8("com.lyndir.masterpassword.login"@) + be32(encode_utf8(site).len() as u32)
                    + encode_utf8(site) + seq![0u8, 0u8, 0u8, 1u8],
            ),
            type_code,
        ),
{
    assert(be32(1) =~= seq![0u8, 0u8, 0u8, 1u8]);
    assert(site_salt(Purpose::Identification, site, 1, None) =~= encode_utf8(
        "com.lyndir.masterpassword.login"@,
    ) + be32(encode_utf8(site).len() as u32) + encode_utf8(site) + seq![0u8, 0u8, 0u8, 1u8]);
}

/// A security answer is a phrase filled from the HMAC-SHA256, under the
/// master key, of the recovery scope "com.lyndir.masterpassword.answer", the
/// site's byte length and bytes, the counter 1, and, for a non-empty question,
/// the question's byte length and bytes; an empty question adds nothing.
pub proof fn lemma_answer_message(key: Seq<u8>, site: Seq<char>, question: Seq<char>)
    ensures
        answer_of(key, site, question) == derived_text(
            hmac_sha256(
                key,
                encode_utf8("com.lyndir.masterpassword.answer"@) + be32(encode_utf8(site).len() as u32)
                    + encode_utf8(site) + seq![0u8, 0u8, 0u8, 1u8] + if question.len() == 0 {
                    Seq::<u8>::empty()
                } else {
                    be32(encode_utf8(question).len() as u32) + encode_utf8(question)
                },
            ),
            31,
        ),
{
    assert(be32(1) =~= seq![0u8, 0u8, 0u8, 1u8]);
    let context = if question.len() == 0 { None } else { Some(question) };
    let base = encode_utf8("com.lyndir.masterpassword.answer"@) + be32(encode_utf8(site).len() as u32)
        + encode_utf8(site) + seq![0u8, 0u8, 0u8, 1u8];
    if question.len() == 0 {
        assert(site_salt(Purpose::Recovery, site, 1, context) =~= base + Seq::<u8>::empty());
    } else {
        assert(site_salt(Purpose::Recovery, site, 1, context) =~= base + (be32(
            encode_utf8(question).len() as u32,
        ) + encode_utf8(question)));
    }
}

} // verus!
