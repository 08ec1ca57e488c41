//! The vault data model: the user identity settings, one entry per site, and
//! the vault that keeps the sites in name order with no name twice.

use vstd::prelude::*;

use crate::algorithm::STATEFUL_CLASS;
use crate::identity::opt_string_view;
use crate::order::{lemma_name_order, name_less, name_lt, names_equal};

verus! {

/// The algorithm version a user or site has when the export does not say.
pub fn default_algorithm() -> (v: u8)
    ensures
        v == 3,
{
    3
}

/// The result type a user or site has when the export does not say (long).
pub fn default_type() -> (v: u16)
    ensures
        v == 17,
{
    17
}

/// The counter a site has when the export does not say.
pub fn default_counter() -> (v: u32)
    ensures
        v == 1,
{
    1
}

/// What a user entry holds.
pub struct UserModel {
    pub full_name: Seq<char>,
    pub algorithm: u8,
    pub default_type: u16,
    pub avatar: u32,
}

/// The user identity carried in an export/vault. The master password is never
/// stored here; only public identity settings are.
#[derive(Clone, Debug, PartialEq, Eq)]
pub struct User {
    pub full_name: String,
    pub algorithm: u8,
    pub default_type: u16,
    pub avatar: u32,
}

impl View for User {
    type V = UserModel;

    open spec fn view(&self) -> UserModel {
        UserModel {
            full_name: self.full_name@,
            algorithm: self.algorithm,
            default_type: self.default_type,
            avatar: self.avatar,
        }
    }
}

/// What a site entry holds.
pub struct SiteModel {
    pub counter: u32,
    pub algorithm: u8,
    pub type_code: u16,
    pub login_type: u16,
    pub uses: u32,
    pub last_used: Seq<char>,
    pub url: Option<Seq<char>>,
    pub password: Option<Seq<char>>,
    pub stored: Option<Seq<char>>,
}

/// A single site entry.
#[derive(Clone, Debug, PartialEq, Eq)]
pub struct Site {
    pub counter: u32,
    pub algorithm: u8,
    pub type_code: u16,
    pub login_type: u16,
    pub uses: u32,
    pub last_used: String,
    pub url: Option<String>,
    /// The value imported for a stateful entry (base64 ciphertext, as
    /// in the export). Kept only for round-trip export; not usable directly.
    pub password: Option<String>,
    /// This app's own plaintext value for a stateful ("own") entry.
    pub stored: Option<String>,
}

impl View for Site {
    type V = SiteModel;

    open spec fn view(&self) -> SiteModel {
        SiteModel {
            counter: self.counter,
            algorithm: self.algorithm,
            type_code: self.type_code,
            login_type: self.login_type,
            uses: self.uses,
            last_used: self.last_used@,
            url: opt_string_view(self.url),
            password: opt_string_view(self.password),
            stored: opt_string_view(self.stored),
        }
    }
}

/// Whether a site's value is stored rather than derived.
pub open spec fn site_is_stateful(s: SiteModel) -> bool {
    s.type_code >= STATEFUL_CLASS
}

impl Site {
    /// True if this entry is stored rather than derived.
    pub fn is_stateful(&self) -> (r: bool)
        ensures
            r == site_is_stateful(self@),
    {
        self.type_code >= STATEFUL_CLASS
    }
}

/// Site entries in strictly increasing name order (so no name twice).
pub open spec fn names_sorted(sites: Seq<(Seq<char>, SiteModel)>) -> bool {
    forall|i: int, j: int|
        0 <= i < j < sites.len() ==> name_lt(#[trigger] sites[i].0, #[trigger] sites[j].0)
}

/// Whether a site of this name is present.
pub open spec fn has_site(sites: Seq<(Seq<char>, SiteModel)>, name: Seq<char>) -> bool {
    exists|i: int| 0 <= i < sites.len() && #[trigger] sites[i].0 == name
}

/// The place of a site of this name (meaningful when one is present).
pub open spec fn site_index(sites: Seq<(Seq<char>, SiteModel)>, name: Seq<char>) -> int {
    choose|i: int| 0 <= i < sites.len() && #[trigger] sites[i].0 == name
}

/// What a vault holds: the user and the sites in name order.
pub struct VaultModel {
    pub user: UserModel,
    pub sites: Seq<(Seq<char>, SiteModel)>,
}

/// The full vault: one user plus the sites, kept in a stable, sorted order
/// for deterministic serialization, each name at most once.
#[derive(Debug)]
pub struct Vault {
    user: User,
    sites: Vec<(String, Site)>,
}

/// The views of site entries.
pub open spec fn entry_views(v: Seq<(String, Site)>) -> Seq<(Seq<char>, SiteModel)> {
    Seq::new(v.len(), |i: int| (v[i].0@, v[i].1@))
}

impl View for Vault {
    type V = VaultModel;

    closed spec fn view(&self) -> VaultModel {
        VaultModel { user: self.user@, sites: entry_views(self.sites@) }
    }
}

impl Vault {
    #[verifier::type_invariant]
    spec fn sorted(self) -> bool {
        names_sorted(entry_views(self.sites@))
    }

    /// An empty vault for a user.
    pub fn new(user: User) -> (v: Vault)
        ensures
            v@.user == user@,
            v@.sites == Seq::<(Seq<char>, SiteModel)>::empty(),
    {
        let v = Vault { user, sites: Vec::new() };
        assert(v@.sites =~= Seq::<(Seq<char>, SiteModel)>::empty());
        v
    }

    /// The user.
    pub fn user(&self) -> (u: &User)
        ensures
            u@ == self@.user,
    {
        &self.user
    }

    /// The site entries, in strictly increasing name order.
    pub fn sites(&self) -> (s: &Vec<(String, Site)>)
        ensures
            entry_views(s@) == self@.sites,
            names_sorted(self@.sites),
    {
        proof {
            use_type_invariant(self);
        }
        &self.sites
    }

    /// The number of sites.
    pub fn len(&self) -> (n: usize)
        ensures
            n == self@.sites.len(),
    {
        self.sites.len()
    }

    /// The place of the site of this name, if present.
    fn position(&self, name: &str) -> (r: Option<usize>)
        ensures
            r matches Some(i) ==> i < self@.sites.len() && self@.sites[i as int].0 == name@,
            r is None ==> !has_site(self@.sites, name@),
    {
        let mut i: usize = 0;
        while i < self.sites.len()
            invariant
                i <= self.sites@.len(),
                entry_views(self.sites@) == self@.sites,
                forall|j: int| 0 <= j < i ==> #[trigger] self@.sites[j].0 != name@,
            decreases self.sites@.len() - i,
        {
            if names_equal(self.sites[i].0.as_str(), name) {
                return Some(i);
            }
            i = i + 1;
        }
        None
    }

    /// The site of this name, if present.
    pub fn site(&self, name: &str) -> (r: Option<&Site>)
        ensures
            r is Some <==> has_site(self@.sites, name@),
            r matches Some(s) ==> s@ == self@.sites[site_index(self@.sites, name@)].1,
    {
        proof {
            use_type_invariant(self);
        }
        match self.position(name) {
            Some(i) => {
                proof {
                    let k = site_index(self@.sites, name@);
                    if k != i as int {
                        if k < i {
                            assert(name_lt(self@.sites[k].0, self@.sites[i as int].0));
                        } else {
                            assert(name_lt(self@.sites[i as int].0, self@.sites[k].0));
                        }
                        lemma_name_order(name@, name@, name@);
                    }
                }
                Some(&self.sites[i].1)
            },
            None => None,
        }
    }
}


/// A site after one more use at time `now`: the use count goes up by one
/// (staying at its maximum there) and the last-used time becomes `now`.
pub open spec fn marked_used(s: SiteModel, now: Seq<char>) -> SiteModel {
    SiteModel {
        counter: s.counter,
        algorithm: s.algorithm,
        type_code: s.type_code,
        login_type: s.login_type,
        uses: if s.uses == u32::MAX { u32::MAX } else { (s.uses + 1) as u32 },
        last_used: now,
        url: s.url,
        password: s.password,
        stored: s.stored,
    }
}

/// The views of borrowed site entries.
pub open spec fn entry_ref_views(v: Seq<(&String, &Site)>) -> Seq<(Seq<char>, SiteModel)> {
    Seq::new(v.len(), |i: int| (v[i].0@, v[i].1@))
}

/// The stored ("stateful") entries among sites, in their order.
pub open spec fn stateful_entries(sites: Seq<(Seq<char>, SiteModel)>) -> Seq<(Seq<char>, SiteModel)> {
    sites.filter(|e: (Seq<char>, SiteModel)| site_is_stateful(e.1))
}

impl Vault {
    /// Add a site, or replace the site of the same name; returns the replaced
    /// site. Name order is kept.
    pub fn insert_site(&mut self, name: String, site: Site) -> (r: Option<Site>)
        ensures
            final(self)@.user == old(self)@.user,
            r is Some <==> has_site(old(self)@.sites, name@),
            r matches Some(prev) ==> {
                let i = site_index(old(self)@.sites, name@);
                &&& prev@ == old(self)@.sites[i].1
                &&& final(self)@.sites == old(self)@.sites.update(i, (name@, site@))
            },
            r is None ==> exists|j: int|
                0 <= j <= old(self)@.sites.len() && final(self)@.sites == old(self)@.sites.insert(
                    j,
                    (name@, site@),
                ),
    {
        proof {
            use_type_invariant(&*self);
        }
        let ghost old_sites = self@.sites;
        let mut i: usize = 0;
        while i < self.sites.len()
            invariant
                i <= self.sites@.len(),
                entry_views(self.sites@) == old_sites,
                forall|j: int| 0 <= j < i ==> name_lt(#[trigger] old_sites[j].0, name@),
            ensures
                i <= self.sites@.len(),
                entry_views(self.sites@) == old_sites,
                forall|j: int| 0 <= j < i ==> name_lt(#[trigger] old_sites[j].0, name@),
                i < self.sites@.len() ==> !name_lt(old_sites[i as int].0, name@),
            decreases self.sites@.len() - i,
        {
            if !name_less(self.sites[i].0.as_str(), name.as_str()) {
                break;
            }
            i = i + 1;
        }
        let mut tmp: Vec<(String, Site)> = Vec::new();
        std::mem::swap(&mut tmp, &mut self.sites);
        assert(entry_views(tmp@) == old_sites);
        if i < tmp.len() && names_equal(tmp[i].0.as_str(), name.as_str()) {
            let (_, prev) = tmp.remove(i);
            tmp.insert(i, (name, site));
            proof {
                assert(entry_views(tmp@) =~= old_sites.update(i as int, (name@, site@)));
                assert forall|a: int, b: int|
                    0 <= a < b < tmp@.len() implies name_lt(
                    #[trigger] entry_views(tmp@)[a].0,
                    #[trigger] entry_views(tmp@)[b].0,
                ) by {
                    assert(name_lt(old_sites[a].0, old_sites[b].0));
                }
                let k = site_index(old_sites, name@);
                if k != i as int {
                    if k < i {
                        assert(name_lt(old_sites[k].0, old_sites[i as int].0));
                    } else {
                        assert(name_lt(old_sites[i as int].0, old_sites[k].0));
                    }
                    lemma_name_order(name@, name@, name@);
                }
            }
            self.sites = tmp;
            Some(prev)
        } else {
            proof {
                if i < tmp@.len() {
                    lemma_name_order(old_sites[i as int].0, name@, name@);
                    assert(name_lt(name@, old_sites[i as int].0));
                    assert forall|j: int| i <= j < old_sites.len() implies name_lt(
                        name@,
                        #[trigger] old_sites[j].0,
                    ) by {
                        if j > i {
                            assert(name_lt(old_sites[i as int].0, old_sites[j].0));
                            lemma_name_order(name@, old_sites[i as int].0, old_sites[j].0);
                        }
                    }
                }
                assert forall|j: int| 0 <= j < old_sites.len() implies old_sites[j].0 != name@ by {
                    if j < i {
                        assert(name_lt(old_sites[j].0, name@));
                    } else {
                        assert(name_lt(name@, old_sites[j].0));
                    }
                    lemma_name_order(name@, name@, name@);
                }
            }
            tmp.insert(i, (name, site));
            proof {
                let s2 = entry_views(tmp@);
                assert(s2 =~= old_sites.insert(i as int, (name@, site@)));
                assert forall|a: int, b: int| 0 <= a < b < s2.len() implies name_lt(
                    #[trigger] s2[a].0,
                    #[trigger] s2[b].0,
                ) by {
                    if b < i {
                        assert(name_lt(old_sites[a].0, old_sites[b].0));
                    } else if b == i {
                        assert(name_lt(old_sites[a].0, name@));
                    } else if a < i {
                        assert(name_lt(old_sites[a].0, name@));
                        assert(name_lt(name@, old_sites[b - 1].0));
                        lemma_name_order(old_sites[a].0, name@, old_sites[b - 1].0);
                    } else if a == i {
                        assert(name_lt(name@, old_sites[b - 1].0));
                    } else {
                        assert(name_lt(old_sites[a - 1].0, old_sites[b - 1].0));
                    }
                }
            }
            self.sites = tmp;
            None
        }
    }

    /// Record a use of `site`: bump the use count (saturating) and set the
    /// last-used timestamp. A name with no site changes nothing. The caller
    /// supplies the timestamp (ISO-8601).
    pub fn mark_used(&mut self, site: &str, now_iso: &str)
        ensures
            final(self)@.user == old(self)@.user,
            has_site(old(self)@.sites, site@) ==> {
                let i = site_index(old(self)@.sites, site@);
                final(self)@.sites == old(self)@.sites.update(
                    i,
                    (site@, marked_used(old(self)@.sites[i].1, now_iso@)),
                )
            },
            !has_site(old(self)@.sites, site@) ==> final(self)@.sites == old(self)@.sites,
    {
        proof {
            use_type_invariant(&*self);
        }
        let ghost old_sites = self@.sites;
        if let Some(i) = self.position(site) {
            proof {
                let k = site_index(old_sites, site@);
                if k != i as int {
                    if k < i {
                        assert(name_lt(old_sites[k].0, old_sites[i as int].0));
                    } else {
                        assert(name_lt(old_sites[i as int].0, old_sites[k].0));
                    }
                    lemma_name_order(site@, site@, site@);
                }
            }
            let mut tmp: Vec<(String, Site)> = Vec::new();
            std::mem::swap(&mut tmp, &mut self.sites);
            assert(entry_views(tmp@) == old_sites);
            let (name, mut entry) = tmp.remove(i);
            entry.uses = entry.uses.saturating_add(1);
            entry.last_used = String::from_str(now_iso);
            tmp.insert(i, (name, entry));
            proof {
                let s2 = entry_views(tmp@);
                assert(s2 =~= old_sites.update(i as int, (site@, marked_used(old_sites[i as int].1, now_iso@))));
                assert forall|a: int, b: int| 0 <= a < b < s2.len() implies name_lt(
                    #[trigger] s2[a].0,
                    #[trigger] s2[b].0,
                ) by {
                    assert(name_lt(old_sites[a].0, old_sites[b].0));
                }
            }
            self.sites = tmp;
        }
    }

    /// The stored ("stateful") sites that cannot be derived, in name order.
    pub fn stateful_sites(&self) -> (r: Vec<(&String, &Site)>)
        ensures
            entry_ref_views(r@) == stateful_entries(self@.sites),
    {
        let mut r: Vec<(&String, &Site)> = Vec::new();
        let n = self.sites.len();
        let ghost all = self@.sites;
        for i in 0..n
            invariant
                n == self.sites@.len(),
                all == entry_views(self.sites@),
                entry_ref_views(r@) == stateful_entries(all.take(i as int)),
        {
            reveal_with_fuel(Seq::<_>::filter, 1);
            let entry = &self.sites[i];
            assert(all.take(i + 1).drop_last() =~= all.take(i as int));
            if entry.1.is_stateful() {
                r.push((&entry.0, &entry.1));
            }
            assert(entry_ref_views(r@) =~= stateful_entries(all.take(i + 1)));
        }
        assert(all.take(n as int) =~= all);
        r
    }
}

/// In a vault's name order every name has one place: the place of a name
/// found at `k` is `k`.
pub proof fn lemma_site_index_unique(sites: Seq<(Seq<char>, SiteModel)>, name: Seq<char>, k: int)
    requires
        names_sorted(sites),
        0 <= k < sites.len(),
        sites[k].0 == name,
    ensures
        has_site(sites, name),
        site_index(sites, name) == k,
{
    let i = site_index(sites, name);
    if i != k {
        if i < k {
            assert(name_lt(sites[i].0, sites[k].0));
        } else {
            assert(name_lt(sites[k].0, sites[i].0));
        }
        lemma_name_order(name, name, name);
    }
}

/// A site is stored rather than derived exactly when its result type is
/// 1024 or above.
pub proof fn lemma_stateful_types(s: SiteModel)
    ensures
        site_is_stateful(s) <==> s.type_code >= 1024,
{
}

/// A use bumps the use count by one, staying at `u32::MAX` once there, sets
/// the last-used time to the given one, and changes nothing else of the site.
pub proof fn lemma_marked_used(s: SiteModel, now: Seq<char>)
    ensures
        ({
            let m = marked_used(s, now);
            &&& s.uses < 0xffff_ffff ==> m.uses == s.uses + 1
            &&& s.uses == 0xffff_ffff ==> m.uses == s.uses
            &&& m.last_used == now
            &&& m.counter == s.counter && m.algorithm == s.algorithm && m.type_code == s.type_code
            &&& m.login_type == s.login_type && m.url == s.url && m.password == s.password
            &&& m.stored == s.stored
        }),
{
}

/// The stored sites of a vault, in order: an entry is listed exactly when its
/// result type is 1024 or above, and every listed entry is one of the vault's.
pub proof fn lemma_stateful_entries(sites: Seq<(Seq<char>, SiteModel)>)
    ensures
        forall|e: (Seq<char>, SiteModel)| #[trigger] stateful_entries(sites).contains(e) <==> (sites.contains(e)
            && e.1.type_code >= 1024),
{
    assert forall|e: (Seq<char>, SiteModel)| #[trigger] stateful_entries(sites).contains(e) <==> (sites.contains(e)
        && e.1.type_code >= 1024) by {
        if stateful_entries(sites).contains(e) {
            sites.lemma_filter_contains_rev(|x: (Seq<char>, SiteModel)| site_is_stateful(x.1), e);
        }
        if sites.contains(e) && e.1.type_code >= 1024 {
            let i = choose|i: int| 0 <= i < sites.len() && sites[i] == e;
            sites.lemma_filter_contains(|x: (Seq<char>, SiteModel)| site_is_stateful(x.1), i);
        }
    }
}

} // verus!
