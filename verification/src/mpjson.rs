//! Writing a vault as a standard, re-importable `.mpjson` document (format 1,
//! redacted), laid out exactly as `serde_json`'s pretty printer lays out the
//! document: two-space indentation, object keys in sorted order.

use vstd::prelude::*;

use crate::json::{json_string, push_json_string};
use crate::models::{Site, SiteModel, Vault, VaultModel, entry_views};
use crate::text::{decimal, push_decimal, push_str};

verus! {

/// One site entry of the export: its name, then the metadata a re-import
/// needs. Stored values are not written.
pub open spec fn site_entry_text(name: Seq<char>, s: SiteModel) -> Seq<char> {
    "    "@ + json_string(name) + ": {\n      \"algorithm\": "@ + decimal(s.algorithm as nat)
        + ",\n      \"counter\": "@ + decimal(s.counter as nat) + ",\n      \"last_used\": "@
        + json_string(s.last_used) + ",\n      \"login_type\": "@ + decimal(s.login_type as nat)
        + ",\n      \"type\": "@ + decimal(s.type_code as nat) + ",\n      \"uses\": "@
        + decimal(s.uses as nat) + "\n    }"@
}

/// The first `n` site entries, separated by commas.
pub open spec fn site_entries_text(sites: Seq<(Seq<char>, SiteModel)>, n: nat) -> Seq<char>
    decreases n,
{
    if n == 0 {
        Seq::empty()
    } else if n == 1 {
        site_entry_text(sites[0].0, sites[0].1)
    } else {
        site_entries_text(sites, (n - 1) as nat) + ",\n"@ + site_entry_text(sites[n - 1].0, sites[n - 1].1)
    }
}

/// The `sites` object.
pub open spec fn sites_text(sites: Seq<(Seq<char>, SiteModel)>) -> Seq<char> {
    if sites.len() == 0 {
        "{}"@
    } else {
        "{\n"@ + site_entries_text(sites, sites.len()) + "\n  }"@
    }
}

/// The whole export document.
pub open spec fn export_text(v: VaultModel, date: Seq<char>) -> Seq<char> {
    "{\n  \"export\": {\n    \"date\": "@ + json_string(date)
        + ",\n    \"format\": 1,\n    \"redacted\": true\n  },\n  \"sites\": "@ + sites_text(v.sites)
        + ",\n  \"user\": {\n    \"algorithm\": "@ + decimal(v.user.algorithm as nat)
        + ",\n    \"avatar\": "@ + decimal(v.user.avatar as nat) + ",\n    \"default_type\": "@
        + decimal(v.user.default_type as nat) + ",\n    \"full_name\": "@ + json_string(v.user.full_name)
        + "\n  }\n}"@
}

/// Append one site entry.
fn push_site_entry(out: &mut String, name: &str, s: &Site)
    ensures
        final(out)@ == old(out)@ + site_entry_text(name@, s@),
{
    push_str(out, "    ");
    push_json_string(out, name);
    push_str(out, ": {\n      \"algorithm\": ");
    push_decimal(out, s.algorithm as u64);
    push_str(out, ",\n      \"counter\": ");
    push_decimal(out, s.counter as u64);
    push_str(out, ",\n      \"last_used\": ");
    push_json_string(out, s.last_used.as_str());
    push_str(out, ",\n      \"login_type\": ");
    push_decimal(out, s.login_type as u64);
    push_str(out, ",\n      \"type\": ");
    push_decimal(out, s.type_code as u64);
    push_str(out, ",\n      \"uses\": ");
    push_decimal(out, s.uses as u64);
    push_str(out, "\n    }");
    assert(out@ =~= old(out)@ + site_entry_text(name@, s@));
}

/// Serialize a vault to a standard, re-importable `.mpjson` string (format 1,
/// redacted). Derivable passwords are reconstructed on import, so no secret
/// values are written; stored "Own" values are intentionally omitted (use the
/// encrypted backup to preserve those).
pub fn export_mpjson_string(vault: &Vault, date: &str) -> (text: String)
    ensures
        text@ == export_text(vault@, date@),
{
    let mut out = String::new();
    push_str(&mut out, "{\n  \"export\": {\n    \"date\": ");
    push_json_string(&mut out, date);
    push_str(&mut out, ",\n    \"format\": 1,\n    \"redacted\": true\n  },\n  \"sites\": ");
    let sites = vault.sites();
    let ghost all = vault@.sites;
    let ghost before = out@;
    if sites.len() == 0 {
        push_str(&mut out, "{}");
    } else {
        push_str(&mut out, "{\n");
        let ghost opened = out@;
        for i in 0..sites.len()
            invariant
                entry_views(sites@) == all,
                out@ == opened + site_entries_text(all, i as nat),
        {
            if i > 0 {
                push_str(&mut out, ",\n");
            }
            let (name, s) = &sites[i];
            push_site_entry(&mut out, name.as_str(), s);
            proof {
                assert(all[i as int] == (name@, s@));
                if i == 0 {
                    assert(out@ =~= opened + site_entries_text(all, 1));
                } else {
                    assert(out@ =~= opened + site_entries_text(all, (i + 1) as nat));
                }
            }
        }
        push_str(&mut out, "\n  }");
    }
    assert(out@ =~= before + sites_text(all));
    let user = vault.user();
    push_str(&mut out, ",\n  \"user\": {\n    \"algorithm\": ");
    push_decimal(&mut out, user.algorithm as u64);
    push_str(&mut out, ",\n    \"avatar\": ");
    push_decimal(&mut out, user.avatar as u64);
    push_str(&mut out, ",\n    \"default_type\": ");
    push_decimal(&mut out, user.default_type as u64);
    push_str(&mut out, ",\n    \"full_name\": ");
    push_json_string(&mut out, user.full_name.as_str());
    push_str(&mut out, "\n  }\n}");
    assert(out@ =~= export_text(vault@, date@));
    out
}

/// What the export shows of a site besides its name: counter, algorithm,
/// result type, login type, use count and last-used time.
pub open spec fn export_metadata(s: SiteModel) -> (u32, u8, u16, u16, u32, Seq<char>) {
    (s.counter, s.algorithm, s.type_code, s.login_type, s.uses, s.last_used)
}

proof fn lemma_entries_depend_on_metadata(
    a: Seq<(Seq<char>, SiteModel)>,
    b: Seq<(Seq<char>, SiteModel)>,
    n: nat,
)
    requires
        n <= a.len(),
        a.len() == b.len(),
        forall|i: int| 0 <= i < a.len() ==> #[trigger] a[i].0 == b[i].0 && export_metadata(a[i].1) == export_metadata(b[i].1),
    ensures
        site_entries_text(a, n) == site_entries_text(b, n),
    decreases n,
{
    if n > 1 {
        lemma_entries_depend_on_metadata(a, b, (n - 1) as nat);
    }
    if n > 0 {
        assert(a[n - 1].0 == b[n - 1].0 && export_metadata(a[n - 1].1) == export_metadata(b[n - 1].1));
    }
    if n == 1 {
        assert(a[0].0 == b[0].0 && export_metadata(a[0].1) == export_metadata(b[0].1));
    }
}

/// The export is redacted: two vaults with the same user and the same site
/// names and metadata export the same text, whatever stored values, imported
/// passwords or URLs their sites hold.
pub proof fn lemma_export_ignores_stored_values(v1: VaultModel, v2: VaultModel, date: Seq<char>)
    requires
        v1.user == v2.user,
        v1.sites.len() == v2.sites.len(),
        forall|i: int|
            0 <= i < v1.sites.len() ==> #[trigger] v1.sites[i].0 == v2.sites[i].0 && export_metadata(
                v1.sites[i].1,
            ) == export_metadata(v2.sites[i].1),
    ensures
        export_text(v1, date) == export_text(v2, date),
{
    lemma_entries_depend_on_metadata(v1.sites, v2.sites, v1.sites.len());
}

} // verus!
