//! The vault model and the command layer's decisions: ordering, saving,
//! use counts, what a site shows, unlock checks and Touch ID answers.

use spectre::biometric::{self, disable_result, unlock_result, KeychainDelete, KeychainRead};
use spectre::session::{check_unlock_input, derive_site, list_sites, lock_poisoned, locked_err, save_site, SiteView};
use spectre::{export_mpjson_string, Identity, Site, User, Vault, TYPE_NAME};

fn user() -> User {
    User { full_name: "Robert Lee Mitchell".to_string(), algorithm: 3, default_type: 17, avatar: 0 }
}

fn site(type_code: u16, uses: u32) -> Site {
    Site {
        counter: 1,
        algorithm: 3,
        type_code,
        login_type: 0,
        uses,
        last_used: String::new(),
        url: None,
        password: None,
        stored: None,
    }
}

fn names(v: &Vault) -> Vec<String> {
    v.sites().iter().map(|(n, _)| n.clone()).collect()
}

#[test]
fn sites_stay_sorted_and_unique() {
    let mut v = Vault::new(user());
    assert!(v.insert_site("m.example".to_string(), site(17, 1)).is_none());
    assert!(v.insert_site("a.example".to_string(), site(17, 2)).is_none());
    assert!(v.insert_site("z.example".to_string(), site(17, 3)).is_none());
    assert!(v.insert_site("\u{e9}.example".to_string(), site(17, 4)).is_none());
    let prev = v.insert_site("m.example".to_string(), site(18, 5)).unwrap();

    assert_eq!(prev.uses, 1);
    assert_eq!(names(&v), vec!["a.example", "m.example", "z.example", "\u{e9}.example"]);
    assert_eq!(v.site("m.example").unwrap().type_code, 18);
    assert_eq!(v.len(), 4);
    assert!(v.site("missing").is_none());
}

#[test]
fn mark_used_saturates_and_ignores_unknown_sites() {
    let mut v = Vault::new(user());
    v.insert_site("full.example".to_string(), site(17, u32::MAX));
    v.insert_site("other.example".to_string(), site(17, 4));

    v.mark_used("full.example", "2026-01-01T00:00:00Z");
    v.mark_used("nowhere.example", "2026-01-01T00:00:00Z");

    assert_eq!(v.site("full.example").unwrap().uses, u32::MAX);
    assert_eq!(v.site("full.example").unwrap().last_used, "2026-01-01T00:00:00Z");
    assert_eq!(v.site("other.example").unwrap().uses, 4);
    assert_eq!(v.site("other.example").unwrap().last_used, "");
    assert_eq!(v.len(), 2);
}

#[test]
fn stateful_sites_lists_stored_entries_in_order() {
    let mut v = Vault::new(user());
    v.insert_site("c.example".to_string(), site(1056, 0));
    v.insert_site("a.example".to_string(), site(17, 0));
    v.insert_site("b.example".to_string(), site(1024, 0));

    let stateful: Vec<&String> = v.stateful_sites().into_iter().map(|(n, _)| n).collect();

    assert_eq!(stateful, vec!["b.example", "c.example"]);
}

#[test]
fn save_site_creates_and_updates_entries() {
    let mut v = Vault::new(user());
    let row: SiteView = save_site(
        &mut v,
        "bank.example",
        2,
        1056,
        30,
        Some("   ".to_string()),
        Some("hunter2".to_string()),
    );

    assert_eq!(row.name, "bank.example");
    assert!(row.stateful);
    assert_eq!(row.url, None);
    assert_eq!(row.stored.as_deref(), Some("hunter2"));
    let s = v.site("bank.example").unwrap();
    assert_eq!((s.counter, s.algorithm, s.type_code, s.login_type, s.uses), (2, 3, 1056, 30, 0));

    v.mark_used("bank.example", "2026-02-02T00:00:00Z");
    let row = save_site(&mut v, "bank.example", 3, 17, 0, Some("https://bank.example".to_string()), Some("\t\n".to_string()));

    assert!(!row.stateful);
    assert_eq!(row.uses, 1);
    assert_eq!(row.last_used, "2026-02-02T00:00:00Z");
    assert_eq!(row.url.as_deref(), Some("https://bank.example"));
    assert_eq!(row.stored, None);
    assert_eq!(v.len(), 1);
}

#[test]
fn list_sites_shows_every_site_by_name() {
    let mut v = Vault::new(user());
    v.insert_site("b.example".to_string(), site(1056, 2));
    v.insert_site("a.example".to_string(), site(17, 1));

    let rows = list_sites(&v);

    assert_eq!(rows.len(), 2);
    assert_eq!(rows[0].name, "a.example");
    assert!(!rows[0].stateful);
    assert_eq!(rows[1].name, "b.example");
    assert!(rows[1].stateful);
    assert_eq!(rows[1].uses, 2);
}

#[test]
fn derive_picks_stored_standard_or_generated_values() {
    let id = Identity::from_master_key("Robert Lee Mitchell", [3u8; 64]);
    let mut v = Vault::new(user());
    save_site(&mut v, "own.example", 1, 1056, 0, None, Some("kept secret".to_string()));

    let own = derive_site(&id, &v, "own.example", 1, 1056, 0);
    assert_eq!(own.password.as_deref(), Some("kept secret"));
    assert_eq!(own.login, "Robert Lee Mitchell");
    assert_eq!(own.answer, id.answer("own.example", "").unwrap());

    let missing = derive_site(&id, &v, "new.example", 1, 1056, TYPE_NAME);
    assert_eq!(missing.password, None);
    assert_eq!(missing.login, id.login("new.example", TYPE_NAME).unwrap());

    let derived = derive_site(&id, &v, "own.example", 4, 17, 0);
    assert_eq!(derived.password, id.password("own.example", 4, 17));

    let odd_login = derive_site(&id, &v, "own.example", 1, 17, 5);
    assert_eq!(odd_login.login, "");
}

#[test]
fn unlock_input_needs_a_name_and_a_password() {
    let refusal = "full name and master password are required";

    assert_eq!(check_unlock_input("  \u{3000}", "pw").unwrap_err(), refusal);
    assert_eq!(check_unlock_input("Robert", "").unwrap_err(), refusal);
    assert!(check_unlock_input(" Robert ", " ").is_ok());
    assert_eq!(locked_err(), "vault is locked");
    assert_eq!(lock_poisoned(), "internal state lock poisoned");
}

#[test]
fn export_escapes_text_and_lays_out_like_serde_json() {
    let mut v = Vault::new(User { full_name: "A \"B\"\n".to_string(), algorithm: 3, default_type: 17, avatar: 2 });
    let mut s = site(17, 5);
    s.last_used = "t\u{1}".to_string();
    s.stored = Some("never written".to_string());
    v.insert_site("x.example".to_string(), s);

    let text = export_mpjson_string(&v, "2026-09-13T00:00:00Z");

    let expected = "{\n  \"export\": {\n    \"date\": \"2026-09-13T00:00:00Z\",\n    \"format\": 1,\n    \"redacted\": true\n  },\n  \"sites\": {\n    \"x.example\": {\n      \"algorithm\": 3,\n      \"counter\": 1,\n      \"last_used\": \"t\\u0001\",\n      \"login_type\": 0,\n      \"type\": 17,\n      \"uses\": 5\n    }\n  },\n  \"user\": {\n    \"algorithm\": 3,\n    \"avatar\": 2,\n    \"default_type\": 17,\n    \"full_name\": \"A \\\"B\\\"\\n\"\n  }\n}";
    assert_eq!(text, expected);

    let reference = serde_json::to_string_pretty(&serde_json::from_str::<serde_json::Value>(&text).unwrap()).unwrap();
    assert_eq!(text, reference);

    let empty = export_mpjson_string(&Vault::new(user()), "d");
    assert!(empty.contains("\"sites\": {},"));
}

#[test]
fn touch_id_answers() {
    assert_eq!(unlock_result(None), Ok(None));
    assert_eq!(unlock_result(Some(KeychainRead::Missing)), Ok(None));
    assert_eq!(unlock_result(Some(KeychainRead::Found(vec![1, 2]))), Ok(Some(vec![1, 2])));
    assert_eq!(unlock_result(Some(KeychainRead::Failed("locked".to_string()))), Err("locked".to_string()));
    assert_eq!(disable_result(KeychainDelete::Deleted), Ok(()));
    assert_eq!(disable_result(KeychainDelete::Missing), Ok(()));
    assert_eq!(disable_result(KeychainDelete::Failed("no".to_string())), Err("no".to_string()));

    assert_eq!(biometric::enable(&[0u8; 64]), Err("Touch ID is only available on macOS".to_string()));
    assert_eq!(biometric::unlock(), Ok(None));
    assert!(!biometric::is_enabled());
    assert_eq!(biometric::disable(), Ok(()));
}
