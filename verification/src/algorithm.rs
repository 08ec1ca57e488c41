//! The pure parts of the derivation pipeline: scope strings, result templates
//! and character classes, and filling a template from a site-key seed.

use vstd::prelude::*;
use vstd::utf8::*;
use crate::primitives::push_char;

verus! {

/// The purpose of a derivation, which selects the scope string mixed into the
/// site key. A different scope yields an independent value for the same site.
#[derive(Clone, Copy, Debug, PartialEq, Eq)]
pub enum Purpose {
    /// Site passwords.
    Authentication,
    /// Login / user names.
    Identification,
    /// Security-question answers.
    Recovery,
}

/// Result-type codes, matching the `type` field in a `.mpjson` export.
pub const TYPE_MAXIMUM: u16 = 16;
pub const TYPE_LONG: u16 = 17;
pub const TYPE_MEDIUM: u16 = 18;
pub const TYPE_SHORT: u16 = 19;
pub const TYPE_BASIC: u16 = 20;
pub const TYPE_PIN: u16 = 21;
pub const TYPE_NAME: u16 = 30;
pub const TYPE_PHRASE: u16 = 31;

/// Any `type` at or above this is a stored ("stateful") value that cannot be
/// derived.
pub const STATEFUL_CLASS: u16 = 1024;

/// The scope text of a purpose.
pub open spec fn scope_text(p: Purpose) -> Seq<char> {
    match p {
        Purpose::Authentication => "com.lyndir.masterpassword"@,
        Purpose::Identification => "com.lyndir.masterpassword.login"@,
        Purpose::Recovery => "com.lyndir.masterpassword.answer"@,
    }
}

impl Purpose {
    /// The scope string mixed into the salt of a key for this purpose.
    pub fn scope(self) -> (s: &'static str)
        ensures
            s@ == scope_text(self),
    {
        match self {
            Purpose::Authentication => "com.lyndir.masterpassword",
            Purpose::Identification => "com.lyndir.masterpassword.login",
            Purpose::Recovery => "com.lyndir.masterpassword.answer",
        }
    }
}

/// The characters a template symbol expands to; empty for a symbol that is
/// copied through as it is.
pub open spec fn class_text(symbol: char) -> Seq<char> {
    if symbol == 'V' {
        "AEIOU"@
    } else if symbol == 'C' {
        "BCDFGHJKLMNPQRSTVWXYZ"@
    } else if symbol == 'v' {
        "aeiou"@
    } else if symbol == 'c' {
        "bcdfghjklmnpqrstvwxyz"@
    } else if symbol == 'A' {
        "AEIOUBCDFGHJKLMNPQRSTVWXYZ"@
    } else if symbol == 'a' {
        "AEIOUaeiouBCDFGHJKLMNPQRSTVWXYZbcdfghjklmnpqrstvwxyz"@
    } else if symbol == 'n' {
        "0123456789"@
    } else if symbol == 'o' {
        "@&%?,=[]_:-+*$#!'^~;()/."@
    } else if symbol == 'x' {
        "AEIOUaeiouBCDFGHJKLMNPQRSTVWXYZbcdfghjklmnpqrstvwxyz0123456789!@#$%^&*()"@
    } else if symbol == ' ' {
        " "@
    } else {
        Seq::empty()
    }
}

/// The character class of a template symbol.
pub fn char_class(symbol: char) -> (s: &'static str)
    ensures
        s@ == class_text(symbol),
{
    if symbol == 'V' {
        "AEIOU"
    } else if symbol == 'C' {
        "BCDFGHJKLMNPQRSTVWXYZ"
    } else if symbol == 'v' {
        "aeiou"
    } else if symbol == 'c' {
        "bcdfghjklmnpqrstvwxyz"
    } else if symbol == 'A' {
        "AEIOUBCDFGHJKLMNPQRSTVWXYZ"
    } else if symbol == 'a' {
        "AEIOUaeiouBCDFGHJKLMNPQRSTVWXYZbcdfghjklmnpqrstvwxyz"
    } else if symbol == 'n' {
        "0123456789"
    } else if symbol == 'o' {
        "@&%?,=[]_:-+*$#!'^~;()/."
    } else if symbol == 'x' {
        "AEIOUaeiouBCDFGHJKLMNPQRSTVWXYZbcdfghjklmnpqrstvwxyz0123456789!@#$%^&*()"
    } else if symbol == ' ' {
        " "
    } else {
        proof {
            reveal_strlit("");
        }
        ""
    }
}

/// The template set of a result type; `None` for a stateful or unknown type.
pub open spec fn template_set(type_code: u16) -> Option<Seq<Seq<char>>> {
    if type_code == TYPE_MAXIMUM {
        Some(seq!["anoxxxxxxxxxxxxxxxxx"@, "axxxxxxxxxxxxxxxxxno"@])
    } else if type_code == TYPE_LONG {
        Some(seq![
            "CvcvnoCvcvCvcv"@, "CvcvCvcvnoCvcv"@, "CvcvCvcvCvcvno"@,
            "CvccnoCvcvCvcv"@, "CvccCvcvnoCvcv"@, "CvccCvcvCvcvno"@,
            "CvcvnoCvccCvcv"@, "CvcvCvccnoCvcv"@, "CvcvCvccCvcvno"@,
            "CvcvnoCvcvCvcc"@, "CvcvCvcvnoCvcc"@, "CvcvCvcvCvccno"@,
            "CvccnoCvccCvcv"@, "CvccCvccnoCvcv"@, "CvccCvccCvcvno"@,
            "CvcvnoCvccCvcc"@, "CvcvCvccnoCvcc"@, "CvcvCvccCvccno"@,
            "CvccnoCvcvCvcc"@, "CvccCvcvnoCvcc"@, "CvccCvcvCvccno"@,
        ])
    } else if type_code == TYPE_MEDIUM {
        Some(seq!["CvcnoCvc"@, "CvcCvcno"@])
    } else if type_code == TYPE_SHORT {
        Some(seq!["Cvcn"@])
    } else if type_code == TYPE_BASIC {
        Some(seq!["aaanaaan"@, "aannaaan"@, "aaannaaa"@])
    } else if type_code == TYPE_PIN {
        Some(seq!["nnnn"@])
    } else if type_code == TYPE_NAME {
        Some(seq!["cvccvcvcv"@])
    } else if type_code == TYPE_PHRASE {
        Some(seq![
            "cvcc cvc cvccvcv cvc"@,
            "cvc cvccvcvcv cvcv"@,
            "cv cvccv cvc cvcvccv"@,
        ])
    } else {
        None
    }
}

/// The views of a sequence of string slices.
pub open spec fn views_of(ts: Seq<&str>) -> Seq<Seq<char>> {
    Seq::new(ts.len(), |i: int| ts[i]@)
}

/// The template set for a result type, or `None` if the type is stateful or
/// unknown.
pub fn templates_for(type_code: u16) -> (r: Option<&'static [&'static str]>)
    ensures
        r is None <==> template_set(type_code) is None,
        r matches Some(ts) ==> template_set(type_code) == Some(views_of(ts@)),
{
    let templates: &'static [&'static str] = if type_code == TYPE_MAXIMUM {
        &["anoxxxxxxxxxxxxxxxxx", "axxxxxxxxxxxxxxxxxno"]
    } else if type_code == TYPE_LONG {
        &[
            "CvcvnoCvcvCvcv", "CvcvCvcvnoCvcv", "CvcvCvcvCvcvno",
            "CvccnoCvcvCvcv", "CvccCvcvnoCvcv", "CvccCvcvCvcvno",
            "CvcvnoCvccCvcv", "CvcvCvccnoCvcv", "CvcvCvccCvcvno",
            "CvcvnoCvcvCvcc", "CvcvCvcvnoCvcc", "CvcvCvcvCvccno",
            "CvccnoCvccCvcv", "CvccCvccnoCvcv", "CvccCvccCvcvno",
            "CvcvnoCvccCvcc", "CvcvCvccnoCvcc", "CvcvCvccCvccno",
            "CvccnoCvcvCvcc", "CvccCvcvnoCvcc", "CvccCvcvCvccno",
        ]
    } else if type_code == TYPE_MEDIUM {
        &["CvcnoCvc", "CvcCvcno"]
    } else if type_code == TYPE_SHORT {
        &["Cvcn"]
    } else if type_code == TYPE_BASIC {
        &["aaanaaan", "aannaaan", "aaannaaa"]
    } else if type_code == TYPE_PIN {
        &["nnnn"]
    } else if type_code == TYPE_NAME {
        &["cvccvcvcv"]
    } else if type_code == TYPE_PHRASE {
        &["cvcc cvc cvccvcv cvc", "cvc cvccvcvcv cvcv", "cv cvccv cvc cvcvccv"]
    } else {
        return None;
    };
    proof {
        assert(template_set(type_code) == Some(views_of(templates@)));
    }
    Some(templates)
}

} // verus!

verus! {

/// A template every result type uses: short enough for a 32-byte seed (one
/// byte picks the template, one byte per symbol), and written in ASCII.
pub open spec fn template_wf(t: Seq<char>) -> bool {
    &&& 0 < t.len() <= 20
    &&& is_ascii_chars(t)
}

/// Every non-empty character class is ASCII text of at most 72 characters.
pub proof fn lemma_class_wf(symbol: char)
    ensures
        class_text(symbol).len() <= 72,
        is_ascii_chars(class_text(symbol)),
{
    reveal_strlit("AEIOU");
    reveal_strlit("BCDFGHJKLMNPQRSTVWXYZ");
    reveal_strlit("aeiou");
    reveal_strlit("bcdfghjklmnpqrstvwxyz");
    reveal_strlit("AEIOUBCDFGHJKLMNPQRSTVWXYZ");
    reveal_strlit("AEIOUaeiouBCDFGHJKLMNPQRSTVWXYZbcdfghjklmnpqrstvwxyz");
    reveal_strlit("0123456789");
    reveal_strlit("@&%?,=[]_:-+*$#!'^~;()/.");
    reveal_strlit("AEIOUaeiouBCDFGHJKLMNPQRSTVWXYZbcdfghjklmnpqrstvwxyz0123456789!@#$%^&*()");
    reveal_strlit(" ");
}

/// Every template set is non-empty, and each of its templates is well formed.
pub proof fn lemma_templates_wf(type_code: u16)
    ensures
        template_set(type_code) matches Some(ts) ==> {
            &&& 0 < ts.len() <= 21
            &&& forall|k: int| 0 <= k < ts.len() ==> #[trigger] template_wf(ts[k])
        },
{
    reveal_strlit("anoxxxxxxxxxxxxxxxxx");
    reveal_strlit("axxxxxxxxxxxxxxxxxno");
    reveal_strlit("CvcvnoCvcvCvcv");
    reveal_strlit("CvcvCvcvnoCvcv");
    reveal_strlit("CvcvCvcvCvcvno");
    reveal_strlit("CvccnoCvcvCvcv");
    reveal_strlit("CvccCvcvnoCvcv");
    reveal_strlit("CvccCvcvCvcvno");
    reveal_strlit("CvcvnoCvccCvcv");
    reveal_strlit("CvcvCvccnoCvcv");
    reveal_strlit("CvcvCvccCvcvno");
    reveal_strlit("CvcvnoCvcvCvcc");
    reveal_strlit("CvcvCvcvnoCvcc");
    reveal_strlit("CvcvCvcvCvccno");
    reveal_strlit("CvccnoCvccCvcv");
    reveal_strlit("CvccCvccnoCvcv");
    reveal_strlit("CvccCvccCvcvno");
    reveal_strlit("CvcvnoCvccCvcc");
    reveal_strlit("CvcvCvccnoCvcc");
    reveal_strlit("CvcvCvccCvccno");
    reveal_strlit("CvccnoCvcvCvcc");
    reveal_strlit("CvccCvcvnoCvcc");
    reveal_strlit("CvccCvcvCvccno");
    reveal_strlit("CvcnoCvc");
    reveal_strlit("CvcCvcno");
    reveal_strlit("Cvcn");
    reveal_strlit("aaanaaan");
    reveal_strlit("aannaaan");
    reveal_strlit("aaannaaa");
    reveal_strlit("nnnn");
    reveal_strlit("cvccvcvcv");
    reveal_strlit("cvcc cvc cvccvcv cvc");
    reveal_strlit("cvc cvccvcvcv cvcv");
    reveal_strlit("cv cvccv cvc cvcvccv");
}

} // verus!

verus! {

/// The output character for one template symbol and its seed byte.
pub open spec fn fill_symbol(symbol: char, b: u8) -> char {
    let cls = class_text(symbol);
    if cls.len() == 0 {
        symbol
    } else {
        cls[(b as int) % (cls.len() as int)]
    }
}

/// A template filled from a seed: symbol `i` takes seed byte `i + 1`.
pub open spec fn fill_template(template: Seq<char>, seed: Seq<u8>) -> Seq<char> {
    Seq::new(template.len(), |i: int| fill_symbol(template[i], seed[i + 1]))
}

/// The template that seed byte 0 selects from a set.
pub open spec fn pick_template(ts: Seq<Seq<char>>, seed: Seq<u8>) -> Seq<char> {
    ts[(seed[0] as int) % (ts.len() as int)]
}

/// The result of a derivation from a 32-byte seed; `None` for a stateful or
/// unknown result type.
pub open spec fn derived_text(seed: Seq<u8>, type_code: u16) -> Option<Seq<char>> {
    match template_set(type_code) {
        None => None,
        Some(ts) => Some(fill_template(pick_template(ts, seed), seed)),
    }
}

/// Fill a template for `type_code` from the site-key seed. Returns `None` for
/// stateful/unknown types.
pub fn derive_result(seed: &[u8; 32], type_code: u16) -> (r: Option<String>)
    ensures
        r matches Some(s) ==> derived_text(seed@, type_code) == Some(s@),
        r is None <==> derived_text(seed@, type_code) is None,
{
    let templates = match templates_for(type_code) {
        Some(ts) => ts,
        None => return None,
    };
    proof {
        lemma_templates_wf(type_code);
    }
    let template = templates[seed[0] as usize % templates.len()];
    proof {
        assert(template@ == pick_template(views_of(templates@), seed@));
        assert(template_wf(template@));
        vstd::utf8::is_ascii_chars_encode_utf8(template@);
    }
    let bytes = template.as_bytes();
    let mut out = String::new();
    let ghost t = template@;
    for i in 0..bytes.len()
        invariant
            bytes@ == encode_utf8(t),
            bytes@.len() == t.len(),
            t.len() <= 20,
            seed@.len() == 32,
            forall|j: int| 0 <= j < t.len() ==> #[trigger] t[j] as u8 == bytes@[j],
            is_ascii_chars(t),
            out@ == fill_template(t, seed@).subrange(0, i as int),
    {
        let symbol = bytes[i] as char;
        assert(symbol == t[i as int]);
        let class = char_class(symbol);
        proof {
            lemma_class_wf(symbol);
            vstd::utf8::is_ascii_chars_encode_utf8(class@);
        }
        if class.is_empty() {
            push_char(&mut out, symbol);
        } else {
            let index = seed[i + 1] as usize % class.len();
            let c = class.as_bytes()[index] as char;
            assert(c == class@[index as int]);
            push_char(&mut out, c);
        }
        assert(out@ =~= fill_template(t, seed@).subrange(0, i + 1));
    }
    assert(out@ =~= fill_template(t, seed@));
    Some(out)
}

} // verus!

verus! {

/// Whether `c` may stand where the template has `symbol`: a character of the
/// symbol's class, or the symbol itself when it has no class.
pub open spec fn admits(symbol: char, c: char) -> bool {
    if class_text(symbol).len() == 0 {
        c == symbol
    } else {
        class_text(symbol).contains(c)
    }
}

/// The result types that derive a value: every other type code (the stateful
/// ones at or above `STATEFUL_CLASS` among them) derives nothing.
pub open spec fn is_template_type(type_code: u16) -> bool {
    ||| TYPE_MAXIMUM <= type_code <= TYPE_PIN
    ||| type_code == TYPE_NAME
    ||| type_code == TYPE_PHRASE
}

/// A result is derived exactly for the template types; stateful and unknown
/// types yield nothing.
pub proof fn lemma_result_defined(seed: Seq<u8>, type_code: u16)
    ensures
        derived_text(seed, type_code) is Some <==> is_template_type(type_code),
        derived_text(seed, type_code) is Some <==> (16 <= type_code <= 21 || type_code == 30
            || type_code == 31),
        type_code >= 1024 ==> derived_text(seed, type_code) is None,
        type_code >= STATEFUL_CLASS ==> derived_text(seed, type_code) is None,
{
}

/// A derived result follows one template of its type character by character:
/// it has the template's length and each character belongs to the class of
/// the template symbol at its place.
pub proof fn lemma_result_follows_template(seed: Seq<u8>, type_code: u16)
    requires
        seed.len() == 32,
    ensures
        derived_text(seed, type_code) matches Some(s) ==> exists|k: int|
            #![trigger template_set(type_code)->0[k]]
            {
                let t = template_set(type_code)->0[k];
                &&& 0 <= k < template_set(type_code)->0.len()
                &&& s.len() == t.len()
                &&& forall|i: int| 0 <= i < s.len() ==> admits(t[i], #[trigger] s[i])
            },
{
    lemma_templates_wf(type_code);
    if let Some(ts) = template_set(type_code) {
        let k = (seed[0] as int) % (ts.len() as int);
        let t = ts[k];
        let s = fill_template(t, seed);
        assert forall|i: int| 0 <= i < s.len() implies admits(t[i], #[trigger] s[i]) by {
            let cls = class_text(t[i]);
            if cls.len() > 0 {
                assert(cls[(seed[i + 1] as int) % (cls.len() as int)] == s[i]);
            }
        }
        assert(template_set(type_code)->0[k] == t);
    }
}

} // verus!

verus! {

/// A login name (the name template `cvccvcvcv`) is nine lowercase ASCII
/// letters.
pub proof fn lemma_name_shape(seed: Seq<u8>)
    requires
        seed.len() == 32,
    ensures
        derived_text(seed, TYPE_NAME) matches Some(s) && s.len() == 9 && forall|i: int|
            0 <= i < 9 ==> 'a' <= #[trigger] s[i] <= 'z',
{
    reveal_strlit("cvccvcvcv");
    reveal_strlit("bcdfghjklmnpqrstvwxyz");
    reveal_strlit("aeiou");
    let s = derived_text(seed, TYPE_NAME)->0;
    assert forall|i: int| 0 <= i < 9 implies 'a' <= #[trigger] s[i] <= 'z' by {
        let sym = "cvccvcvcv"@[i];
        let cls = class_text(sym);
        let j = (seed[i + 1] as int) % (cls.len() as int);
        assert(s[i] == cls[j]);
    }
}

/// A security answer (a phrase template) contains a space.
pub proof fn lemma_phrase_has_space(seed: Seq<u8>)
    requires
        seed.len() == 32,
    ensures
        derived_text(seed, TYPE_PHRASE) matches Some(s) && exists|i: int|
            0 <= i < s.len() && #[trigger] s[i] == ' ',
{
    reveal_strlit("cvcc cvc cvccvcv cvc");
    reveal_strlit("cvc cvccvcvcv cvcv");
    reveal_strlit("cv cvccv cvc cvcvccv");
    reveal_strlit(" ");
    let s = derived_text(seed, TYPE_PHRASE)->0;
    let k = (seed[0] as int) % 3;
    if k == 0 {
        assert(s[4] == ' ');
    } else if k == 1 {
        assert(s[3] == ' ');
    } else {
        assert(s[2] == ' ');
    }
}

/// A long password (the default result type) has fourteen characters.
pub proof fn lemma_long_length(seed: Seq<u8>)
    requires
        seed.len() == 32,
    ensures
        derived_text(seed, TYPE_LONG) matches Some(s) && s.len() == 14,
{
    lemma_templates_wf(TYPE_LONG);
    reveal_strlit("CvcvnoCvcvCvcv");
    reveal_strlit("CvcvCvcvnoCvcv");
    reveal_strlit("CvcvCvcvCvcvno");
    reveal_strlit("CvccnoCvcvCvcv");
    reveal_strlit("CvccCvcvnoCvcv");
    reveal_strlit("CvccCvcvCvcvno");
    reveal_strlit("CvcvnoCvccCvcv");
    reveal_strlit("CvcvCvccnoCvcv");
    reveal_strlit("CvcvCvccCvcvno");
    reveal_strlit("CvcvnoCvcvCvcc");
    reveal_strlit("CvcvCvcvnoCvcc");
    reveal_strlit("CvcvCvcvCvccno");
    reveal_strlit("CvccnoCvccCvcv");
    reveal_strlit("CvccCvccnoCvcv");
    reveal_strlit("CvccCvccCvcvno");
    reveal_strlit("CvcvnoCvccCvcc");
    reveal_strlit("CvcvCvccnoCvcc");
    reveal_strlit("CvcvCvccCvccno");
    reveal_strlit("CvccnoCvcvCvcc");
    reveal_strlit("CvccCvcvnoCvcc");
    reveal_strlit("CvccCvcvCvccno");
}

} // verus!

verus! {

/// A syllable of a long template: `Cvcc` when `closed`, `Cvcv` otherwise.
pub open spec fn syllable(closed: bool) -> Seq<char> {
    if closed {
        seq!['C', 'v', 'c', 'c']
    } else {
        seq!['C', 'v', 'c', 'v']
    }
}

/// The syllable kinds (`true` for `Cvcc`) of the seven syllable combinations
/// the long type uses, in its order; the eighth, three `Cvcc`, is not used.
pub open spec fn long_combination(c: int) -> (bool, bool, bool) {
    if c == 0 {
        (false, false, false)
    } else if c == 1 {
        (true, false, false)
    } else if c == 2 {
        (false, true, false)
    } else if c == 3 {
        (false, false, true)
    } else if c == 4 {
        (true, true, false)
    } else if c == 5 {
        (false, true, true)
    } else {
        (true, false, true)
    }
}

/// Long template `k`: three syllables of combination `k / 3`, with the
/// number-and-symbol pair `no` after the first syllable, after the second, or
/// at the end, as `k % 3` is 0, 1 or 2.
pub open spec fn long_template(k: int) -> Seq<char> {
    let (a, b, c) = long_combination(k / 3);
    let no = seq!['n', 'o'];
    if k % 3 == 0 {
        syllable(a) + no + syllable(b) + syllable(c)
    } else if k % 3 == 1 {
        syllable(a) + syllable(b) + no + syllable(c)
    } else {
        syllable(a) + syllable(b) + syllable(c) + no
    }
}

/// Which long template a text is, read from where its `no` stands and which
/// of its syllables end in `c`.
pub open spec fn long_index_of(t: Seq<char>) -> int {
    let p: int = if t[4] == 'n' { 0 } else if t[8] == 'n' { 1 } else { 2 };
    let s2: int = if p == 0 { 6 } else { 4 };
    let s3: int = if p == 2 { 8 } else { 10 };
    let a = t[3] == 'c';
    let b = t[s2 + 3] == 'c';
    let c = t[s3 + 3] == 'c';
    let combo: int = if !a && !b && !c { 0 } else if a && !b && !c { 1 } else if !a && b && !c {
        2
    } else if !a && !b && c { 3 } else if a && b && !c { 4 } else if !a && b && c { 5 } else { 6 };
    3 * combo + p
}

/// The long result type (the default) has the 21 templates of algorithm v3:
/// every combination of `Cvcv` and `Cvcc` syllables but three `Cvcc`, each
/// with `no` after the first, after the second or after the last syllable,
/// in the algorithm's order; no template occurs twice.
pub proof fn lemma_long_templates(type_code: u16)
    requires
        type_code == TYPE_LONG,
    ensures
        template_set(type_code) matches Some(ts) && ts.len() == 21 && (forall|k: int|
            0 <= k < 21 ==> #[trigger] ts[k] == long_template(k)) && (forall|i: int, j: int|
            0 <= i < j < 21 ==> ts[i] != ts[j]),
{
    reveal_strlit("CvcvnoCvcvCvcv");
    reveal_strlit("CvcvCvcvnoCvcv");
    reveal_strlit("CvcvCvcvCvcvno");
    reveal_strlit("CvccnoCvcvCvcv");
    reveal_strlit("CvccCvcvnoCvcv");
    reveal_strlit("CvccCvcvCvcvno");
    reveal_strlit("CvcvnoCvccCvcv");
    reveal_strlit("CvcvCvccnoCvcv");
    reveal_strlit("CvcvCvccCvcvno");
    reveal_strlit("CvcvnoCvcvCvcc");
    reveal_strlit("CvcvCvcvnoCvcc");
    reveal_strlit("CvcvCvcvCvccno");
    reveal_strlit("CvccnoCvccCvcv");
    reveal_strlit("CvccCvccnoCvcv");
    reveal_strlit("CvccCvccCvcvno");
    reveal_strlit("CvcvnoCvccCvcc");
    reveal_strlit("CvcvCvccnoCvcc");
    reveal_strlit("CvcvCvccCvccno");
    reveal_strlit("CvccnoCvcvCvcc");
    reveal_strlit("CvccCvcvnoCvcc");
    reveal_strlit("CvccCvcvCvccno");
    let ts = template_set(type_code)->0;
    assert(ts[0] =~= long_template(0));
    assert(long_index_of(long_template(0)) == 0);
    assert(ts[1] =~= long_template(1));
    assert(long_index_of(long_template(1)) == 1);
    assert(ts[2] =~= long_template(2));
    assert(long_index_of(long_template(2)) == 2);
    assert(ts[3] =~= long_template(3));
    assert(long_index_of(long_template(3)) == 3);
    assert(ts[4] =~= long_template(4));
    assert(long_index_of(long_template(4)) == 4);
    assert(ts[5] =~= long_template(5));
    assert(long_index_of(long_template(5)) == 5);
    assert(ts[6] =~= long_template(6));
    assert(long_index_of(long_template(6)) == 6);
    assert(ts[7] =~= long_template(7));
    assert(long_index_of(long_template(7)) == 7);
    assert(ts[8] =~= long_template(8));
    assert(long_index_of(long_template(8)) == 8);
    assert(ts[9] =~= long_template(9));
    assert(long_index_of(long_template(9)) == 9);
    assert(ts[10] =~= long_template(10));
    assert(long_index_of(long_template(10)) == 10);
    assert(ts[11] =~= long_template(11));
    assert(long_index_of(long_template(11)) == 11);
    assert(ts[12] =~= long_template(12));
    assert(long_index_of(long_template(12)) == 12);
    assert(ts[13] =~= long_template(13));
    assert(long_index_of(long_template(13)) == 13);
    assert(ts[14] =~= long_template(14));
    assert(long_index_of(long_template(14)) == 14);
    assert(ts[15] =~= long_template(15));
    assert(long_index_of(long_template(15)) == 15);
    assert(ts[16] =~= long_template(16));
    assert(long_index_of(long_template(16)) == 16);
    assert(ts[17] =~= long_template(17));
    assert(long_index_of(long_template(17)) == 17);
    assert(ts[18] =~= long_template(18));
    assert(long_index_of(long_template(18)) == 18);
    assert(ts[19] =~= long_template(19));
    assert(long_index_of(long_template(19)) == 19);
    assert(ts[20] =~= long_template(20));
    assert(long_index_of(long_template(20)) == 20);
    assert forall|i: int, j: int| 0 <= i < j < 21 implies ts[i] != ts[j] by {
        assert(long_index_of(ts[i]) == i);
        assert(long_index_of(ts[j]) == j);
    }
}

} // verus!

verus! {

/// How a 32-byte seed fills a result: seed byte 0 picks the template (its
/// value modulo the number of templates of the type), and character `i` of
/// the result is the class character of template symbol `i` at seed byte
/// `i + 1` modulo the class size, or the symbol itself when it has no class.
pub proof fn lemma_seed_fills_template(seed: Seq<u8>, type_code: u16)
    requires
        seed.len() == 32,
        is_template_type(type_code),
    ensures
        ({
            let ts = template_set(type_code)->0;
            let t = ts[(seed[0] as int) % (ts.len() as int)];
            let s = derived_text(seed, type_code)->0;
            &&& derived_text(seed, type_code) is Some
            &&& s.len() == t.len()
            &&& forall|i: int|
                0 <= i < s.len() ==> #[trigger] s[i] == if class_text(t[i]).len() == 0 {
                    t[i]
                } else {
                    class_text(t[i])[(seed[i + 1] as int) % (class_text(t[i]).len() as int)]
                }
        }),
{
}

} // verus!

verus! {

/// The lowercase form of an uppercase ASCII letter.
pub open spec fn ascii_lower(c: char) -> char {
    ((c as u8) + 32) as u8 as char
}

/// An uppercase ASCII vowel.
pub open spec fn is_upper_vowel(c: char) -> bool {
    c == 'A' || c == 'E' || c == 'I' || c == 'O' || c == 'U'
}

/// The character classes of algorithm v3: `V` the five uppercase vowels in
/// alphabetical order, `C` the 21 uppercase consonants in alphabetical order
/// (strictly increasing, none a vowel), `v` and `c` their lowercase forms,
/// `A` vowels then consonants, `a` uppercase vowels, lowercase vowels,
/// uppercase consonants, lowercase consonants, `n` the ten digits in order,
/// `x` the `a` class, the digits and `!@#$%^&*()`, `o` the 24 symbols
/// `@&%?,=[]_:-+*$#!'^~;()/.`, a space stands for itself, and every other
/// symbol has no class.
pub proof fn lemma_classes()
    ensures
        class_text('V') == seq!['A', 'E', 'I', 'O', 'U'],
        class_text('C').len() == 21,
        forall|i: int| 0 <= i < 21 ==> 'A' <= #[trigger] class_text('C')[i] <= 'Z' && !is_upper_vowel(class_text('C')[i]),
        forall|i: int| 0 <= i < 20 ==> #[trigger] class_text('C')[i] < class_text('C')[i + 1],
        class_text('v') == Seq::new(5, |i: int| ascii_lower(class_text('V')[i])),
        class_text('c') == Seq::new(21, |i: int| ascii_lower(class_text('C')[i])),
        class_text('A') == class_text('V') + class_text('C'),
        class_text('a') == class_text('V') + class_text('v') + class_text('C') + class_text('c'),
        class_text('n') == Seq::new(10, |i: int| ((48 + i) as u8) as char),
        class_text('x') == class_text('a') + class_text('n') + seq!['!', '@', '#', '$', '%', '^', '&', '*', '(', ')'],
        class_text('o') == seq![
            '@', '&', '%', '?', ',', '=', '[', ']', '_', ':', '-', '+', '*', '$', '#', '!', '\'',
            '^', '~', ';', '(', ')', '/', '.',
        ],
        class_text(' ') == seq![' '],
        forall|c: char|
            !(c == 'V' || c == 'C' || c == 'v' || c == 'c' || c == 'A' || c == 'a' || c == 'n' || c == 'o'
                || c == 'x' || c == ' ') ==> #[trigger] class_text(c).len() == 0,
{
    reveal_strlit("AEIOU");
    reveal_strlit("BCDFGHJKLMNPQRSTVWXYZ");
    reveal_strlit("aeiou");
    reveal_strlit("bcdfghjklmnpqrstvwxyz");
    reveal_strlit("AEIOUBCDFGHJKLMNPQRSTVWXYZ");
    reveal_strlit("AEIOUaeiouBCDFGHJKLMNPQRSTVWXYZbcdfghjklmnpqrstvwxyz");
    reveal_strlit("0123456789");
    reveal_strlit("@&%?,=[]_:-+*$#!'^~;()/.");
    reveal_strlit("AEIOUaeiouBCDFGHJKLMNPQRSTVWXYZbcdfghjklmnpqrstvwxyz0123456789!@#$%^&*()");
    reveal_strlit(" ");
    assert(class_text('V') =~= seq!['A', 'E', 'I', 'O', 'U']);
    assert(class_text('v') =~= Seq::new(5, |i: int| ascii_lower(class_text('V')[i])));
    assert(class_text('c') =~= Seq::new(21, |i: int| ascii_lower(class_text('C')[i])));
    assert(class_text('A') =~= class_text('V') + class_text('C'));
    assert(class_text('a') =~= class_text('V') + class_text('v') + class_text('C') + class_text('c'));
    assert(class_text('n') =~= Seq::new(10, |i: int| ((48 + i) as u8) as char));
    assert(class_text('x') =~= class_text('a') + class_text('n') + seq!['!', '@', '#', '$', '%', '^', '&', '*', '(', ')']);
    assert(class_text('o') =~= seq![
        '@', '&', '%', '?', ',', '=', '[', ']', '_', ':', '-', '+', '*', '$', '#', '!', '\'',
        '^', '~', ';', '(', ')', '/', '.',
    ]);
    assert(class_text(' ') =~= seq![' ']);
}

} // verus!

verus! {

/// `n` copies of a character.
pub open spec fn repeated(c: char, n: nat) -> Seq<char> {
    Seq::new(n, |i: int| c)
}

/// The result-type codes of an export: 16 to 21 for maximum, long, medium,
/// short, basic and PIN, 30 for a name, 31 for a phrase; 1024 and above are
/// stored values.
pub proof fn lemma_type_codes()
    ensures
        TYPE_MAXIMUM == 16 && TYPE_LONG == 17 && TYPE_MEDIUM == 18 && TYPE_SHORT == 19,
        TYPE_BASIC == 20 && TYPE_PIN == 21 && TYPE_NAME == 30 && TYPE_PHRASE == 31,
        STATEFUL_CLASS == 1024,
{
}

/// The templates of the other result types of algorithm v3: maximum is
/// `ano` or `a` ... `no` around seventeen `x`; medium is two `Cvc`
/// syllables with `no` between or after them; short is `Cvc` and a digit;
/// basic is three eight-symbol mixes of `a` and `n`; a PIN is four digits; a
/// name is `cvccvcvcv`; a phrase is one of three word patterns of `c`, `v`
/// and spaces.
pub proof fn lemma_other_templates()
    ensures
        template_set(TYPE_MAXIMUM) == Some(seq![
            seq!['a', 'n', 'o'] + repeated('x', 17),
            seq!['a'] + repeated('x', 17) + seq!['n', 'o'],
        ]),
        template_set(TYPE_MEDIUM) == Some(seq![
            seq!['C', 'v', 'c'] + seq!['n', 'o'] + seq!['C', 'v', 'c'],
            seq!['C', 'v', 'c'] + seq!['C', 'v', 'c'] + seq!['n', 'o'],
        ]),
        template_set(TYPE_SHORT) == Some(seq![seq!['C', 'v', 'c', 'n']]),
        template_set(TYPE_BASIC) == Some(seq![seq!['a', 'a', 'a', 'n', 'a', 'a', 'a', 'n'], seq!['a', 'a', 'n', 'n', 'a', 'a', 'a', 'n'], seq!['a', 'a', 'a', 'n', 'n', 'a', 'a', 'a']]),
        template_set(TYPE_PIN) == Some(seq![repeated('n', 4)]),
        template_set(TYPE_NAME) == Some(seq![seq!['c', 'v', 'c', 'c', 'v', 'c', 'v', 'c', 'v']]),
        template_set(TYPE_PHRASE) == Some(seq![seq!['c', 'v', 'c', 'c', ' ', 'c', 'v', 'c', ' ', 'c', 'v', 'c', 'c', 'v', 'c', 'v', ' ', 'c', 'v', 'c'], seq!['c', 'v', 'c', ' ', 'c', 'v', 'c', 'c', 'v', 'c', 'v', 'c', 'v', ' ', 'c', 'v', 'c', 'v'], seq!['c', 'v', ' ', 'c', 'v', 'c', 'c', 'v', ' ', 'c', 'v', 'c', ' ', 'c', 'v', 'c', 'v', 'c', 'c', 'v']]),
{
    reveal_strlit("anoxxxxxxxxxxxxxxxxx");
    reveal_strlit("axxxxxxxxxxxxxxxxxno");
    reveal_strlit("CvcnoCvc");
    reveal_strlit("CvcCvcno");
    reveal_strlit("Cvcn");
    reveal_strlit("aaanaaan");
    reveal_strlit("aannaaan");
    reveal_strlit("aaannaaa");
    reveal_strlit("nnnn");
    reveal_strlit("cvccvcvcv");
    reveal_strlit("cvcc cvc cvccvcv cvc");
    reveal_strlit("cvc cvccvcvcv cvcv");
    reveal_strlit("cv cvccv cvc cvcvccv");
    assert(template_set(TYPE_MAXIMUM)->0[0] =~= seq!['a', 'n', 'o'] + repeated('x', 17));
    assert(template_set(TYPE_MAXIMUM)->0[1] =~= seq!['a'] + repeated('x', 17) + seq!['n', 'o']);
    assert(template_set(TYPE_MAXIMUM)->0 =~= seq![seq!['a', 'n', 'o'] + repeated('x', 17), seq!['a'] + repeated('x', 17) + seq!['n', 'o']]);
    assert(template_set(TYPE_MEDIUM)->0[0] =~= seq!['C', 'v', 'c'] + seq!['n', 'o'] + seq!['C', 'v', 'c']);
    assert(template_set(TYPE_MEDIUM)->0[1] =~= seq!['C', 'v', 'c'] + seq!['C', 'v', 'c'] + seq!['n', 'o']);
    assert(template_set(TYPE_MEDIUM)->0 =~= seq![seq!['C', 'v', 'c'] + seq!['n', 'o'] + seq!['C', 'v', 'c'], seq!['C', 'v', 'c'] + seq!['C', 'v', 'c'] + seq!['n', 'o']]);
    assert(template_set(TYPE_SHORT)->0[0] =~= seq!['C', 'v', 'c', 'n']);
    assert(template_set(TYPE_SHORT)->0 =~= seq![seq!['C', 'v', 'c', 'n']]);
    assert(template_set(TYPE_BASIC)->0[0] =~= seq!['a', 'a', 'a', 'n', 'a', 'a', 'a', 'n']);
    assert(template_set(TYPE_BASIC)->0[1] =~= seq!['a', 'a', 'n', 'n', 'a', 'a', 'a', 'n']);
    assert(template_set(TYPE_BASIC)->0[2] =~= seq!['a', 'a', 'a', 'n', 'n', 'a', 'a', 'a']);
    assert(template_set(TYPE_BASIC)->0 =~= seq![seq!['a', 'a', 'a', 'n', 'a', 'a', 'a', 'n'], seq!['a', 'a', 'n', 'n', 'a', 'a', 'a', 'n'], seq!['a', 'a', 'a', 'n', 'n', 'a', 'a', 'a']]);
    assert(template_set(TYPE_PIN)->0[0] =~= repeated('n', 4));
    assert(template_set(TYPE_PIN)->0 =~= seq![repeated('n', 4)]);
    assert(template_set(TYPE_NAME)->0[0] =~= seq!['c', 'v', 'c', 'c', 'v', 'c', 'v', 'c', 'v']);
    assert(template_set(TYPE_NAME)->0 =~= seq![seq!['c', 'v', 'c', 'c', 'v', 'c', 'v', 'c', 'v']]);
    assert(template_set(TYPE_PHRASE)->0[0] =~= seq!['c', 'v', 'c', 'c', ' ', 'c', 'v', 'c', ' ', 'c', 'v', 'c', 'c', 'v', 'c', 'v', ' ', 'c', 'v', 'c']);
    assert(template_set(TYPE_PHRASE)->0[1] =~= seq!['c', 'v', 'c', ' ', 'c', 'v', 'c', 'c', 'v', 'c', 'v', 'c', 'v', ' ', 'c', 'v', 'c', 'v']);
    assert(template_set(TYPE_PHRASE)->0[2] =~= seq!['c', 'v', ' ', 'c', 'v', 'c', 'c', 'v', ' ', 'c', 'v', 'c', ' ', 'c', 'v', 'c', 'v', 'c', 'c', 'v']);
    assert(template_set(TYPE_PHRASE)->0 =~= seq![seq!['c', 'v', 'c', 'c', ' ', 'c', 'v', 'c', ' ', 'c', 'v', 'c', 'c', 'v', 'c', 'v', ' ', 'c', 'v', 'c'], seq!['c', 'v', 'c', ' ', 'c', 'v', 'c', 'c', 'v', 'c', 'v', 'c', 'v', ' ', 'c', 'v', 'c', 'v'], seq!['c', 'v', ' ', 'c', 'v', 'c', 'c', 'v', ' ', 'c', 'v', 'c', ' ', 'c', 'v', 'c', 'v', 'c', 'c', 'v']]);
}

} // verus!
