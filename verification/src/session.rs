//! The decisions of the app's command layer, apart from its locking, files and
//! clipboard: what a site list shows, what a site derives, how a site's
//! settings are saved, and when an unlock request is refused.

use vstd::prelude::*;

use crate::algorithm::STATEFUL_CLASS;
use crate::identity::{answer_of, login_of, opt_string_view, password_of, Identity};
use crate::models::{
    entry_views, has_site, lemma_site_index_unique, names_sorted, site_index, site_is_stateful,
    Site, SiteModel, Vault,
};
use crate::text::{is_blank, is_blank_text, owned};

verus! {

/// The message of a command that needs an unlocked session.
pub fn locked_err() -> (m: String)
    ensures
        m@ == "vault is locked"@,
{
    owned("vault is locked")
}

/// The message of a command that finds the session lock poisoned.
pub fn lock_poisoned() -> (m: String)
    ensures
        m@ == "internal state lock poisoned"@,
{
    owned("internal state lock poisoned")
}

/// A copy of an optional string.
fn clone_opt_string(o: &Option<String>) -> (r: Option<String>)
    ensures
        opt_string_view(r) == opt_string_view(*o),
{
    match o {
        Some(s) => Some(s.clone()),
        None => None,
    }
}

/// What the site list shows of a site.
pub struct SiteViewModel {
    pub name: Seq<char>,
    pub type_code: u16,
    pub login_type: u16,
    pub counter: u32,
    pub uses: u32,
    pub last_used: Seq<char>,
    pub url: Option<Seq<char>>,
    pub stored: Option<Seq<char>>,
    pub stateful: bool,
    pub algorithm: u8,
}

/// One row of the site list.
#[derive(Debug)]
pub struct SiteView {
    pub name: String,
    pub type_code: u16,
    pub login_type: u16,
    pub counter: u32,
    pub uses: u32,
    pub last_used: String,
    pub url: Option<String>,
    pub stored: Option<String>,
    pub stateful: bool,
    pub algorithm: u8,
}

impl View for SiteView {
    type V = SiteViewModel;

    open spec fn view(&self) -> SiteViewModel {
        SiteViewModel {
            name: self.name@,
            type_code: self.type_code,
            login_type: self.login_type,
            counter: self.counter,
            uses: self.uses,
            last_used: self.last_used@,
            url: opt_string_view(self.url),
            stored: opt_string_view(self.stored),
            stateful: self.stateful,
            algorithm: self.algorithm,
        }
    }
}

/// The list row of a named site.
pub open spec fn site_row(name: Seq<char>, s: SiteModel) -> SiteViewModel {
    SiteViewModel {
        name,
        type_code: s.type_code,
        login_type: s.login_type,
        counter: s.counter,
        uses: s.uses,
        last_used: s.last_used,
        url: s.url,
        stored: s.stored,
        stateful: site_is_stateful(s),
        algorithm: s.algorithm,
    }
}

impl SiteView {
    /// The list row of a named site.
    pub fn from_entry(name: &str, site: &Site) -> (v: SiteView)
        ensures
            v@ == site_row(name@, site@),
    {
        SiteView {
            name: owned(name),
            type_code: site.type_code,
            login_type: site.login_type,
            counter: site.counter,
            uses: site.uses,
            last_used: site.last_used.clone(),
            url: clone_opt_string(&site.url),
            stored: clone_opt_string(&site.stored),
            stateful: site.is_stateful(),
            algorithm: site.algorithm,
        }
    }
}

/// The views of list rows.
pub open spec fn row_views(v: Seq<SiteView>) -> Seq<SiteViewModel> {
    Seq::new(v.len(), |i: int| v[i]@)
}

/// All sites as list rows, sorted by name.
pub fn list_sites(vault: &Vault) -> (rows: Vec<SiteView>)
    ensures
        row_views(rows@) == Seq::new(vault@.sites.len(), |i: int| site_row(vault@.sites[i].0, vault@.sites[i].1)),
{
    let sites = vault.sites();
    let mut rows: Vec<SiteView> = Vec::new();
    for i in 0..sites.len()
        invariant
            entry_views(sites@) == vault@.sites,
            rows@.len() == i,
            forall|j: int| 0 <= j < i ==> #[trigger] rows@[j]@ == site_row(vault@.sites[j].0, vault@.sites[j].1),
    {
        let (name, site) = &sites[i];
        rows.push(SiteView::from_entry(name.as_str(), site));
    }
    assert(row_views(rows@) =~= Seq::new(vault@.sites.len(), |i: int| site_row(vault@.sites[i].0, vault@.sites[i].1)));
    rows
}

/// The text of a derivation, or the empty text when there is none.
pub open spec fn text_or_empty(o: Option<Seq<char>>) -> Seq<char> {
    match o {
        Some(s) => s,
        None => Seq::empty(),
    }
}

/// What the detail pane shows for a site.
pub struct DerivedModel {
    pub password: Option<Seq<char>>,
    pub login: Seq<char>,
    pub answer: Seq<char>,
}

/// The derived values of a site for given (possibly unsaved) settings.
#[derive(Debug)]
pub struct Derived {
    /// `None` for stateful sites with no stored value.
    pub password: Option<String>,
    pub login: String,
    pub answer: String,
}

impl View for Derived {
    type V = DerivedModel;

    open spec fn view(&self) -> DerivedModel {
        DerivedModel { password: opt_string_view(self.password), login: self.login@, answer: self.answer@ }
    }
}

/// What a site shows: a stateful type shows the site's stored value (if the
/// site exists and has one), any other type the derived password; login type
/// 0 is the standard login (the full name), any other the generated login
/// with that template; the answer is the generic security answer.
pub open spec fn derived_for(
    key: Seq<u8>,
    full_name: Seq<char>,
    sites: Seq<(Seq<char>, SiteModel)>,
    name: Seq<char>,
    counter: u32,
    type_code: u16,
    login_type: u16,
) -> DerivedModel {
    DerivedModel {
        password: if type_code >= STATEFUL_CLASS {
            if has_site(sites, name) {
                sites[site_index(sites, name)].1.stored
            } else {
                None
            }
        } else {
            password_of(key, name, counter, type_code)
        },
        login: if login_type == 0 {
            full_name
        } else {
            text_or_empty(login_of(key, name, login_type))
        },
        answer: text_or_empty(answer_of(key, name, Seq::empty())),
    }
}

fn string_or_empty(o: Option<String>) -> (s: String)
    ensures
        s@ == text_or_empty(opt_string_view(o)),
{
    match o {
        Some(s) => s,
        None => String::new(),
    }
}

/// Derive password/login/answer for a site with the given (possibly unsaved)
/// settings, for live preview.
pub fn derive_site(
    identity: &Identity,
    vault: &Vault,
    name: &str,
    counter: u32,
    type_code: u16,
    login_type: u16,
) -> (d: Derived)
    ensures
        d@ == derived_for(identity@.key, identity@.full_name, vault@.sites, name@, counter, type_code, login_type),
{
    let password = if type_code >= STATEFUL_CLASS {
        match vault.site(name) {
            Some(s) => clone_opt_string(&s.stored),
            None => None,
        }
    } else {
        identity.password(name, counter, type_code)
    };
    let login = if login_type == 0 {
        owned(identity.standard_login())
    } else {
        string_or_empty(identity.login(name, login_type))
    };
    proof {
        reveal_strlit("");
    }
    let answer = string_or_empty(identity.answer(name, ""));
    let d = Derived { password, login, answer };
    assert(d@.answer == text_or_empty(answer_of(identity@.key, name@, Seq::empty())));
    d
}

/// Whether an unlock request is refused: a blank full name or an empty master
/// password.
pub open spec fn unlock_refused(full_name: Seq<char>, master_password: Seq<char>) -> bool {
    is_blank_text(full_name) || master_password.len() == 0
}

/// Check an unlock request before any key is derived.
pub fn check_unlock_input(full_name: &str, master_password: &str) -> (r: Result<(), String>)
    ensures
        r is Err <==> unlock_refused(full_name@, master_password@),
        r matches Err(m) ==> m@ == "full name and master password are required"@,
{
    if is_blank(full_name) || master_password.is_empty() {
        Err(owned("full name and master password are required"))
    } else {
        Ok(())
    }
}

/// An optional text, dropped when it is blank.
pub open spec fn nonblank(o: Option<Seq<char>>) -> Option<Seq<char>> {
    match o {
        Some(s) => if is_blank_text(s) {
            None
        } else {
            Some(s)
        },
        None => None,
    }
}

fn filter_nonblank(o: Option<String>) -> (r: Option<String>)
    ensures
        opt_string_view(r) == nonblank(opt_string_view(o)),
{
    match o {
        Some(s) => if is_blank(s.as_str()) {
            None
        } else {
            Some(s)
        },
        None => None,
    }
}

/// The site a save creates when the name is new.
pub open spec fn fresh_site() -> SiteModel {
    SiteModel {
        counter: 1,
        algorithm: 3,
        type_code: 17,
        login_type: 0,
        uses: 0,
        last_used: Seq::empty(),
        url: None,
        password: None,
        stored: None,
    }
}

/// A site after its settings are saved: counter, result type and login type
/// as given, URL and stored value as given unless blank, the rest as it was.
pub open spec fn saved_site(
    prev: SiteModel,
    counter: u32,
    type_code: u16,
    login_type: u16,
    url: Option<Seq<char>>,
    stored: Option<Seq<char>>,
) -> SiteModel {
    SiteModel {
        counter,
        algorithm: prev.algorithm,
        type_code,
        login_type,
        uses: prev.uses,
        last_used: prev.last_used,
        url: nonblank(url),
        password: prev.password,
        stored: nonblank(stored),
    }
}

/// Create or update a site's settings; the list row of the saved site.
pub fn save_site(
    vault: &mut Vault,
    name: &str,
    counter: u32,
    type_code: u16,
    login_type: u16,
    url: Option<String>,
    stored: Option<String>,
) -> (row: SiteView)
    ensures
        final(vault)@.user == old(vault)@.user,
        has_site(old(vault)@.sites, name@) ==> {
            let i = site_index(old(vault)@.sites, name@);
            let s = saved_site(old(vault)@.sites[i].1, counter, type_code, login_type, opt_string_view(url), opt_string_view(stored));
            &&& final(vault)@.sites == old(vault)@.sites.update(i, (name@, s))
            &&& row@ == site_row(name@, s)
        },
        !has_site(old(vault)@.sites, name@) ==> {
            let s = saved_site(fresh_site(), counter, type_code, login_type, opt_string_view(url), opt_string_view(stored));
            &&& exists|j: int| 0 <= j <= old(vault)@.sites.len() && final(vault)@.sites == old(vault)@.sites.insert(j, (name@, s))
            &&& row@ == site_row(name@, s)
        },
{
    let url = filter_nonblank(url);
    let stored = filter_nonblank(stored);
    let site = match vault.site(name) {
        Some(prev) => Site {
            counter,
            algorithm: prev.algorithm,
            type_code,
            login_type,
            uses: prev.uses,
            last_used: prev.last_used.clone(),
            url,
            password: clone_opt_string(&prev.password),
            stored,
        },
        None => Site {
            counter,
            algorithm: 3,
            type_code,
            login_type,
            uses: 0,
            last_used: String::new(),
            url,
            password: None,
            stored,
        },
    };
    let row = SiteView::from_entry(name, &site);
    vault.insert_site(owned(name), site);
    row
}

/// What a save stores is what the site then shows: in a vault holding a
/// site at some place, a stateful result type shows that site's stored value
/// (so after `save_site`, the saved non-blank value).
pub proof fn lemma_saved_value_is_shown(
    sites: Seq<(Seq<char>, SiteModel)>,
    k: int,
    key: Seq<u8>,
    full_name: Seq<char>,
    counter: u32,
    type_code: u16,
    login_type: u16,
)
    requires
        names_sorted(sites),
        0 <= k < sites.len(),
        type_code >= STATEFUL_CLASS,
    ensures
        derived_for(key, full_name, sites, sites[k].0, counter, type_code, login_type).password
            == sites[k].1.stored,
{
    lemma_site_index_unique(sites, sites[k].0, k);
}

/// Saving a site's settings sets its counter, result type and login type to
/// the given ones, and its URL and stored value to exactly the given ones,
/// each dropped when absent or blank: whatever URL or stored value the site
/// held before is gone (clearing the field clears it). The algorithm, use
/// count, last-used time and imported password stay as they were; a new site
/// starts with algorithm 3, no uses, no last-used time and no imported
/// password.
pub proof fn lemma_save_sets_given_settings(
    prev: SiteModel,
    other: SiteModel,
    counter: u32,
    type_code: u16,
    login_type: u16,
    url: Option<Seq<char>>,
    stored: Option<Seq<char>>,
)
    ensures
        ({
            let s = saved_site(prev, counter, type_code, login_type, url, stored);
            let t = saved_site(other, counter, type_code, login_type, url, stored);
            &&& s.url == t.url
            &&& s.stored == t.stored
            &&& url is None ==> s.url is None
            &&& stored is None ==> s.stored is None
            &&& (url matches Some(u) ==> s.url == if is_blank_text(u) { None } else { Some(u) })
            &&& (stored matches Some(v) ==> s.stored == if is_blank_text(v) { None } else { Some(v) })
            &&& s.counter == counter
            &&& s.type_code == type_code
            &&& s.login_type == login_type
            &&& s.algorithm == prev.algorithm
            &&& s.uses == prev.uses
            &&& s.last_used == prev.last_used
            &&& s.password == prev.password
        }),
        ({
            let f = saved_site(fresh_site(), counter, type_code, login_type, url, stored);
            &&& f.algorithm == 3
            &&& f.uses == 0
            &&& f.last_used.len() == 0
            &&& f.password is None
        }),
{
}

/// What a site shows: for a stateful result type (1024 and above) the stored
/// value of the site of that name, or nothing when there is no such site;
/// for any other type the password derived for the name, counter and type.
/// Login type 0 shows the full name, any other the login name derived with
/// that type (empty when none). The answer is the generic security answer
/// (empty question).
pub proof fn lemma_what_a_site_shows(
    key: Seq<u8>,
    full_name: Seq<char>,
    sites: Seq<(Seq<char>, SiteModel)>,
    name: Seq<char>,
    counter: u32,
    type_code: u16,
    login_type: u16,
)
    requires
        names_sorted(sites),
    ensures
        ({
            let d = derived_for(key, full_name, sites, name, counter, type_code, login_type);
            &&& type_code >= 1024 ==> forall|k: int|
                0 <= k < sites.len() && #[trigger] sites[k].0 == name ==> d.password == sites[k].1.stored
            &&& type_code >= 1024 && (forall|k: int| 0 <= k < sites.len() ==> #[trigger] sites[k].0 != name)
                ==> d.password is None
            &&& type_code < 1024 ==> d.password == password_of(key, name, counter, type_code)
            &&& login_type == 0 ==> d.login == full_name
            &&& login_type != 0 ==> d.login == match login_of(key, name, login_type) {
                Some(l) => l,
                None => Seq::<char>::empty(),
            }
            &&& d.answer == match answer_of(key, name, Seq::empty()) {
                Some(a) => a,
                None => Seq::<char>::empty(),
            }
        }),
{
    assert forall|k: int| 0 <= k < sites.len() && #[trigger] sites[k].0 == name implies derived_for(
        key,
        full_name,
        sites,
        name,
        counter,
        type_code,
        login_type,
    ).password == sites[k].1.stored || type_code < 1024 by {
        lemma_site_index_unique(sites, name, k);
    }
}

/// An unlock request is refused exactly when every character of the full
/// name is whitespace (an empty name too) or the master password is empty.
pub proof fn lemma_unlock_refused(full_name: Seq<char>, master_password: Seq<char>)
    ensures
        unlock_refused(full_name, master_password) <==> ((forall|i: int|
            0 <= i < full_name.len() ==> crate::text::is_whitespace_char(#[trigger] full_name[i]))
            || master_password.len() == 0),
{
}

} // verus!
