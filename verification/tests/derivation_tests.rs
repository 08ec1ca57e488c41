//! Concrete checks of the derivation laws: templates and classes, the salts
//! that separate purposes, counters and questions, and stateful types.

use hmac::Mac;
use spectre::algorithm::{char_class, derive_result, templates_for};
use spectre::{
    master_key, site_key, site_password, Identity, Purpose, STATEFUL_CLASS, TYPE_BASIC, TYPE_LONG,
    TYPE_MAXIMUM, TYPE_MEDIUM, TYPE_NAME, TYPE_PHRASE, TYPE_PIN, TYPE_SHORT,
};

const FULL_NAME: &str = "Robert Lee Mitchell";
const MASTER: &str = "banana colored duckling";
const SITE: &str = "masterpasswordapp.com";

fn hmac_sha256(key: &[u8], msg: &[u8]) -> [u8; 32] {
    let mut mac = <hmac::Hmac<sha2::Sha256> as Mac>::new_from_slice(key).unwrap();
    mac.update(msg);
    mac.finalize().into_bytes().into()
}

#[test]
fn zero_seed_fills_first_template_with_first_class_chars() {
    let seed = [0u8; 32];

    assert_eq!(derive_result(&seed, TYPE_LONG).unwrap(), "Baba0@BabaBaba");
    assert_eq!(derive_result(&seed, TYPE_PIN).unwrap(), "0000");
    assert_eq!(derive_result(&seed, TYPE_NAME).unwrap(), "babbababa");
    assert_eq!(derive_result(&seed, TYPE_PHRASE).unwrap(), "babb bab babbaba bab");
    assert_eq!(derive_result(&seed, TYPE_SHORT).unwrap(), "Bab0");
    assert_eq!(derive_result(&seed, TYPE_MEDIUM).unwrap(), "Bab0@Bab");
    assert_eq!(derive_result(&seed, TYPE_BASIC).unwrap(), "AAA0AAA0");
    assert_eq!(derive_result(&seed, TYPE_MAXIMUM).unwrap(), "A0@AAAAAAAAAAAAAAAAA");
}

#[test]
fn seed_bytes_pick_template_and_characters() {
    let mut seed = [0u8; 32];
    seed[0] = 1; // second long template: CvcvCvcvnoCvcv
    seed[1] = 20; // 'C' class has 21 letters: index 20 is 'Z'
    seed[2] = 7; // 'v' class has 5: 7 % 5 = 2 -> 'i'
    assert_eq!(derive_result(&seed, TYPE_LONG).unwrap(), "ZibaBaba0@Baba");
}

#[test]
fn stateful_and_unknown_types_derive_nothing() {
    let seed = [7u8; 32];

    assert!(derive_result(&seed, STATEFUL_CLASS).is_none());
    assert!(derive_result(&seed, 1056).is_none());
    assert!(derive_result(&seed, 0).is_none());
    assert!(derive_result(&seed, 22).is_none());
    assert!(templates_for(29).is_none());
    assert_eq!(templates_for(TYPE_LONG).unwrap().len(), 21);
    assert!(site_password(FULL_NAME, MASTER, SITE, 1, 1056).is_none());
}

#[test]
fn char_classes_match_the_algorithm() {
    assert_eq!(char_class('V'), "AEIOU");
    assert_eq!(char_class('n'), "0123456789");
    assert_eq!(char_class(' '), " ");
    assert_eq!(char_class('z'), "");
    assert_eq!(char_class('x').len(), 72);
}

#[test]
fn purpose_scopes_are_the_published_strings() {
    assert_eq!(Purpose::Authentication.scope(), "com.lyndir.masterpassword");
    assert_eq!(Purpose::Identification.scope(), "com.lyndir.masterpassword.login");
    assert_eq!(Purpose::Recovery.scope(), "com.lyndir.masterpassword.answer");
}

#[test]
fn site_key_is_hmac_of_the_scoped_salt() {
    let key = [0x42u8; 64];
    let mut salt = b"com.lyndir.masterpassword.answer".to_vec();
    salt.extend_from_slice(&(SITE.len() as u32).to_be_bytes());
    salt.extend_from_slice(SITE.as_bytes());
    salt.extend_from_slice(&3u32.to_be_bytes());
    salt.extend_from_slice(&(9u32).to_be_bytes());
    salt.extend_from_slice(b"first pet");

    let got = site_key(&key, SITE, 3, Purpose::Recovery, Some("first pet"));

    assert_eq!(got, hmac_sha256(&key, &salt));
    // An empty context is no context.
    assert_eq!(
        site_key(&key, SITE, 3, Purpose::Recovery, Some("")),
        site_key(&key, SITE, 3, Purpose::Recovery, None)
    );
}

#[test]
fn multibyte_names_are_length_prefixed_in_bytes() {
    let key = [1u8; 64];
    let site = "caf\u{e9}.example"; // 13 bytes, 12 characters
    let mut salt = b"com.lyndir.masterpassword".to_vec();
    salt.extend_from_slice(&13u32.to_be_bytes());
    salt.extend_from_slice(site.as_bytes());
    salt.extend_from_slice(&1u32.to_be_bytes());

    assert_eq!(site_key(&key, site, 1, Purpose::Authentication, None), hmac_sha256(&key, &salt));
}

#[test]
fn site_keys_separate_purposes_counters_and_questions() {
    let key = [9u8; 64];
    let auth = site_key(&key, SITE, 1, Purpose::Authentication, None);
    let ident = site_key(&key, SITE, 1, Purpose::Identification, None);
    let recov = site_key(&key, SITE, 1, Purpose::Recovery, None);
    let recov_q = site_key(&key, SITE, 1, Purpose::Recovery, Some("first pet"));
    let auth2 = site_key(&key, SITE, 2, Purpose::Authentication, None);

    assert_ne!(auth, ident);
    assert_ne!(auth, recov);
    assert_ne!(ident, recov);
    assert_ne!(recov, recov_q);
    assert_ne!(auth, auth2);
}

#[test]
fn identity_over_a_derived_master_key_matches_the_vector() {
    let key = master_key(FULL_NAME, MASTER);
    let id = Identity::from_master_key(FULL_NAME, key);

    assert_eq!(id.password(SITE, 1, TYPE_LONG).unwrap(), "Jejr5[RepuSosp");
    assert_eq!(id.full_name(), FULL_NAME);
    assert_eq!(id.standard_login(), FULL_NAME);
}

#[test]
fn results_follow_their_template_shapes() {
    let id = Identity::new(FULL_NAME, MASTER);

    let pin = id.password(SITE, 1, TYPE_PIN).unwrap();
    assert_eq!(pin.len(), 4);
    assert!(pin.chars().all(|c| c.is_ascii_digit()));

    let long = id.password(SITE, 7, TYPE_LONG).unwrap();
    assert_eq!(long.chars().count(), 14);

    let max = id.password(SITE, 1, TYPE_MAXIMUM).unwrap();
    assert_eq!(max.chars().count(), 20);

    let answer = id.answer(SITE, "first pet").unwrap();
    assert!(answer.contains(' '));
    assert!(answer.chars().all(|c| c == ' ' || c.is_ascii_lowercase()));

    assert!(id.password(SITE, 1, STATEFUL_CLASS).is_none());
    assert!(id.login(SITE, 2000).is_none());
}
