//! Organisation profiles and the named OAuth scope presets.

use vstd::prelude::*;
use vstd::string::*;
use crate::text::{str_eq, strings, views};

verus! {

/// A named organisation: the tenant it stands for and the scopes it was granted.
#[derive(Debug, Clone)]
pub struct Profile {
    pub tenant_id: String,
    pub org_name: Option<String>,
    pub scopes: Vec<String>,
}

/// Profiles keyed by name, each name at most once (the `[profiles.*]` tables
/// of the configuration file).
pub struct ProfileMap {
    entries: Vec<(String, Profile)>,
}

/// The map that a list of distinct-keyed entries stands for.
pub open spec fn entries_map(e: Seq<(String, Profile)>) -> Map<Seq<char>, Profile>
    decreases e.len(),
{
    if e.len() == 0 {
        Map::empty()
    } else {
        entries_map(e.drop_last()).insert(e.last().0@, e.last().1)
    }
}

/// No two entries share a name.
pub open spec fn keys_distinct(e: Seq<(String, Profile)>) -> bool {
    forall|i: int, j: int| 0 <= i < j < e.len() ==> e[i].0@ != e[j].0@
}

proof fn lemma_entries_map(e: Seq<(String, Profile)>)
    requires
        keys_distinct(e),
    ensures
        forall|k: Seq<char>|
            #![trigger entries_map(e).dom().contains(k)]
            entries_map(e).dom().contains(k) <==> exists|i: int|
                0 <= i < e.len() && e[i].0@ == k,
        forall|i: int| 0 <= i < e.len() ==> #[trigger] entries_map(e)[e[i].0@] == e[i].1,
        entries_map(e).dom().finite(),
        entries_map(e).dom().len() == e.len(),
    decreases e.len(),
{
    if e.len() > 0 {
        let d = e.drop_last();
        assert(keys_distinct(d));
        lemma_entries_map(d);
        let m = entries_map(d);
        assert(!m.dom().contains(e.last().0@)) by {
            if m.dom().contains(e.last().0@) {
                let i = choose|i: int| 0 <= i < d.len() && d[i].0@ == e.last().0@;
                assert(e[i].0@ == e[e.len() - 1].0@);
            }
        }
        assert forall|k: Seq<char>|
            #![trigger entries_map(e).dom().contains(k)]
            entries_map(e).dom().contains(k) implies exists|i: int|
                0 <= i < e.len() && e[i].0@ == k by {
            if k != e.last().0@ {
                let i = choose|i: int| 0 <= i < d.len() && d[i].0@ == k;
                assert(e[i].0@ == k);
            } else {
                assert(e[e.len() - 1].0@ == k);
            }
        }
        assert forall|k: Seq<char>|
            #![trigger entries_map(e).dom().contains(k)]
            (exists|i: int| 0 <= i < e.len() && e[i].0@ == k) implies entries_map(
                e,
            ).dom().contains(k) by {
            let i = choose|i: int| 0 <= i < e.len() && e[i].0@ == k;
            if i < e.len() - 1 {
                assert(d[i].0@ == k);
            }
        }
        assert forall|i: int| 0 <= i < e.len() implies #[trigger] entries_map(e)[e[i].0@]
            == e[i].1 by {
            if i < e.len() - 1 {
                assert(d[i] == e[i]);
                assert(m[d[i].0@] == d[i].1);
            }
        }
    }
}

impl View for ProfileMap {
    type V = Map<Seq<char>, Profile>;

    closed spec fn view(&self) -> Map<Seq<char>, Profile> {
        entries_map(self.entries@)
    }
}

impl ProfileMap {
    #[verifier::type_invariant]
    spec fn distinct(&self) -> bool {
        keys_distinct(self.entries@)
    }

    /// No profiles.
    pub fn new() -> (m: Self)
        ensures
            m@ == Map::<Seq<char>, Profile>::empty(),
    {
        ProfileMap { entries: Vec::new() }
    }

    /// How many profiles there are.
    pub fn len(&self) -> (n: usize)
        ensures
            n == self@.dom().len(),
    {
        proof {
            use_type_invariant(self);
            lemma_entries_map(self.entries@);
        }
        self.entries.len()
    }

    /// Whether there are no profiles.
    pub fn is_empty(&self) -> (b: bool)
        ensures
            b == (self@.dom().len() == 0),
    {
        self.len() == 0
    }

    /// The profile called `name`, if there is one.
    pub fn get(&self, name: &str) -> (r: Option<&Profile>)
        ensures
            match r {
                Some(p) => self@.dom().contains(name@) && *p == self@[name@],
                None => !self@.dom().contains(name@),
            },
    {
        proof {
            use_type_invariant(self);
            lemma_entries_map(self.entries@);
        }
        match Self::find_in(&self.entries, name) {
            Some(i) => Some(&self.entries[i].1),
            None => None,
        }
    }

    /// Whether there is a profile called `name`.
    pub fn contains_key(&self, name: &str) -> (b: bool)
        ensures
            b == self@.dom().contains(name@),
    {
        proof {
            use_type_invariant(self);
            lemma_entries_map(self.entries@);
        }
        Self::find_in(&self.entries, name).is_some()
    }

    /// Stores `profile` under `name`, replacing a profile of that name.
    pub fn insert(&mut self, name: String, profile: Profile)
        ensures
            final(self)@ == old(self)@.insert(name@, profile),
    {
        proof {
            use_type_invariant(&*self);
            lemma_entries_map(self.entries@);
        }
        let ghost before = self.entries@;
        let mut entries = Vec::new();
        std::mem::swap(&mut entries, &mut self.entries);
        match Self::find_in(&entries, name.as_str()) {
            Some(i) => {
                entries.set(i, (name, profile));
                proof {
                    assert(keys_distinct(entries@));
                    lemma_entries_map(entries@);
                    let m = entries_map(entries@);
                    let o = entries_map(before);
                    assert(m =~= o.insert(name@, profile)) by {
                        assert forall|k: Seq<char>| #[trigger] m.dom().contains(k) == o.insert(name@, profile).dom().contains(k) by {
                            if m.dom().contains(k) {
                                let j = choose|j: int| 0 <= j < entries@.len() && entries@[j].0@ == k;
                                if j != i { assert(before[j].0@ == k); }
                            }
                            if o.dom().contains(k) {
                                let j = choose|j: int| 0 <= j < before.len() && before[j].0@ == k;
                                assert(entries@[j].0@ == k);
                            }
                        }
                        assert forall|k: Seq<char>| #[trigger] m.dom().contains(k) implies m[k] == o.insert(name@, profile)[k] by {
                            let j = choose|j: int| 0 <= j < entries@.len() && entries@[j].0@ == k;
                            if j != i {
                                assert(before[j] == entries@[j]);
                            }
                        }
                    }
                }
            },
            None => {
                entries.push((name, profile));
                proof {
                    assert(entries@.drop_last() =~= before);
                }
            },
        }
        self.entries = entries;
    }

    fn find_in(entries: &Vec<(String, Profile)>, name: &str) -> (r: Option<usize>)
        ensures
            match r {
                Some(i) => i < entries@.len() && entries@[i as int].0@ == name@,
                None => forall|i: int| 0 <= i < entries@.len() ==> entries@[i].0@ != name@,
            },
    {
        let mut i: usize = 0;
        while i < entries.len()
            invariant
                i <= entries@.len(),
                forall|j: int| 0 <= j < i ==> entries@[j].0@ != name@,
            decreases entries@.len() - i,
        {
            if str_eq(entries[i].0.as_str(), name) {
                return Some(i);
            }
            i = i + 1;
        }
        None
    }

    /// The profiles and their names, each name once.
    pub fn entries(&self) -> (r: &Vec<(String, Profile)>)
        ensures
            keys_distinct(r@),
            entries_map(r@) == self@,
    {
        proof {
            use_type_invariant(self);
        }
        &self.entries
    }
}

/// After a profile is stored under a name, looking that name up gives that
/// profile, and every other name gives what it gave before.
pub proof fn lemma_profile_store_lookup(
    before: Map<Seq<char>, Profile>,
    after: Map<Seq<char>, Profile>,
    name: Seq<char>,
    profile: Profile,
    other: Seq<char>,
)
    requires
        after == before.insert(name, profile),
    ensures
        after.dom().contains(name),
        after[name] == profile,
        other != name ==> after.dom().contains(other) == before.dom().contains(other),
        other != name && before.dom().contains(other) ==> after[other] == before[other],
{
}

/// The scopes of the `read-only` preset.
pub open spec fn read_only_scopes() -> Seq<Seq<char>> {
    seq![
        "openid"@,
        "offline_access"@,
        "accounting.invoices.read"@,
        "accounting.payments.read"@,
        "accounting.banktransactions.read"@,
        "accounting.manualjournals.read"@,
        "accounting.contacts.read"@,
        "accounting.settings.read"@,
        "accounting.reports.profitandloss.read"@,
        "accounting.reports.balancesheet.read"@,
        "accounting.reports.aged.read"@,
        "accounting.reports.banksummary.read"@,
        "accounting.reports.trialbalance.read"@,
        "accounting.attachments.read"@,
    ]
}
/// The scopes of the `bookkeeper` preset.
pub open spec fn bookkeeper_scopes() -> Seq<Seq<char>> {
    seq![
        "openid"@,
        "offline_access"@,
        "accounting.invoices.read"@,
        "accounting.invoices"@,
        "accounting.payments.read"@,
        "accounting.payments"@,
        "accounting.banktransactions.read"@,
        "accounting.banktransactions"@,
        "accounting.manualjournals.read"@,
        "accounting.manualjournals"@,
        "accounting.contacts.read"@,
        "accounting.contacts"@,
        "accounting.settings.read"@,
        "accounting.reports.profitandloss.read"@,
        "accounting.reports.balancesheet.read"@,
        "accounting.reports.aged.read"@,
        "accounting.attachments.read"@,
        "accounting.attachments"@,
    ]
}
/// The scopes of the `full-access` preset.
pub open spec fn full_access_scopes() -> Seq<Seq<char>> {
    seq![
        "openid"@,
        "offline_access"@,
        "accounting.invoices"@,
        "accounting.invoices.read"@,
        "accounting.payments"@,
        "accounting.payments.read"@,
        "accounting.banktransactions"@,
        "accounting.banktransactions.read"@,
        "accounting.manualjournals"@,
        "accounting.manualjournals.read"@,
        "accounting.classicexpenses"@,
        "accounting.classicexpenses.read"@,
        "accounting.contacts"@,
        "accounting.contacts.read"@,
        "accounting.settings"@,
        "accounting.settings.read"@,
        "accounting.reports.profitandloss.read"@,
        "accounting.reports.balancesheet.read"@,
        "accounting.reports.aged.read"@,
        "accounting.reports.banksummary.read"@,
        "accounting.reports.trialbalance.read"@,
        "accounting.reports.executivesummary.read"@,
        "accounting.reports.taxreports.read"@,
        "accounting.attachments"@,
        "accounting.attachments.read"@,
        "accounting.budgets.read"@,
    ]
}
/// The scopes of the `reports-only` preset.
pub open spec fn reports_only_scopes() -> Seq<Seq<char>> {
    seq![
        "openid"@,
        "offline_access"@,
        "accounting.reports.profitandloss.read"@,
        "accounting.reports.balancesheet.read"@,
        "accounting.reports.aged.read"@,
        "accounting.reports.banksummary.read"@,
        "accounting.reports.trialbalance.read"@,
        "accounting.reports.executivesummary.read"@,
        "accounting.reports.taxreports.read"@,
        "accounting.settings.read"@,
    ]
}

/// The scopes of the preset called `name`, if there is one.
pub open spec fn preset_scopes(name: Seq<char>) -> Option<Seq<Seq<char>>> {
    if name == "read-only"@ {
        Some(read_only_scopes())
    } else if name == "bookkeeper"@ {
        Some(bookkeeper_scopes())
    } else if name == "full-access"@ {
        Some(full_access_scopes())
    } else if name == "reports-only"@ {
        Some(reports_only_scopes())
    } else {
        None
    }
}

fn read_only() -> (r: Vec<String>)
    ensures
        views(r@) == read_only_scopes(),
{
    let r = strings(&[
        "openid",
        "offline_access",
        "accounting.invoices.read",
        "accounting.payments.read",
        "accounting.banktransactions.read",
        "accounting.manualjournals.read",
        "accounting.contacts.read",
        "accounting.settings.read",
        "accounting.reports.profitandloss.read",
        "accounting.reports.balancesheet.read",
        "accounting.reports.aged.read",
        "accounting.reports.banksummary.read",
        "accounting.reports.trialbalance.read",
        "accounting.attachments.read",
    ]);
    assert(views(r@) =~= read_only_scopes());
    r
}
fn bookkeeper() -> (r: Vec<String>)
    ensures
        views(r@) == bookkeeper_scopes(),
{
    let r = strings(&[
        "openid",
        "offline_access",
        "accounting.invoices.read",
        "accounting.invoices",
        "accounting.payments.read",
        "accounting.payments",
        "accounting.banktransactions.read",
        "accounting.banktransactions",
        "accounting.manualjournals.read",
        "accounting.manualjournals",
        "accounting.contacts.read",
        "accounting.contacts",
        "accounting.settings.read",
        "accounting.reports.profitandloss.read",
        "accounting.reports.balancesheet.read",
        "accounting.reports.aged.read",
        "accounting.attachments.read",
        "accounting.attachments",
    ]);
    assert(views(r@) =~= bookkeeper_scopes());
    r
}
fn full_access() -> (r: Vec<String>)
    ensures
        views(r@) == full_access_scopes(),
{
    let r = strings(&[
        "openid",
        "offline_access",
        "accounting.invoices",
        "accounting.invoices.read",
        "accounting.payments",
        "accounting.payments.read",
        "accounting.banktransactions",
        "accounting.banktransactions.read",
        "accounting.manualjournals",
        "accounting.manualjournals.read",
        "accounting.classicexpenses",
        "accounting.classicexpenses.read",
        "accounting.contacts",
        "accounting.contacts.read",
        "accounting.settings",
        "accounting.settings.read",
        "accounting.reports.profitandloss.read",
        "accounting.reports.balancesheet.read",
        "accounting.reports.aged.read",
        "accounting.reports.banksummary.read",
        "accounting.reports.trialbalance.read",
        "accounting.reports.executivesummary.read",
        "accounting.reports.taxreports.read",
        "accounting.attachments",
        "accounting.attachments.read",
        "accounting.budgets.read",
    ]);
    assert(views(r@) =~= full_access_scopes());
    r
}
fn reports_only() -> (r: Vec<String>)
    ensures
        views(r@) == reports_only_scopes(),
{
    let r = strings(&[
        "openid",
        "offline_access",
        "accounting.reports.profitandloss.read",
        "accounting.reports.balancesheet.read",
        "accounting.reports.aged.read",
        "accounting.reports.banksummary.read",
        "accounting.reports.trialbalance.read",
        "accounting.reports.executivesummary.read",
        "accounting.reports.taxreports.read",
        "accounting.settings.read",
    ]);
    assert(views(r@) =~= reports_only_scopes());
    r
}

/// The scopes of the preset called `name`: `read-only`, `bookkeeper`,
/// `full-access` or `reports-only`; `None` for any other name.
pub fn scope_preset(name: &str) -> (r: Option<Vec<String>>)
    ensures
        match r {
            Some(v) => preset_scopes(name@) == Some(views(v@)),
            None => preset_scopes(name@) is None,
        },
{
    if str_eq(name, "read-only") {
        Some(read_only())
    } else if str_eq(name, "bookkeeper") {
        Some(bookkeeper())
    } else if str_eq(name, "full-access") {
        Some(full_access())
    } else if str_eq(name, "reports-only") {
        Some(reports_only())
    } else {
        None
    }
}

/// Every preset grants `openid` and `offline_access`, so that a login with any
/// preset yields an identity and a refresh token.
pub proof fn lemma_presets_keep_session(name: Seq<char>)
    requires
        preset_scopes(name) is Some,
    ensures
        preset_scopes(name)->0.contains("openid"@),
        preset_scopes(name)->0.contains("offline_access"@),
{
    let s = preset_scopes(name)->0;
    assert(s[0] == "openid"@);
    assert(s[1] == "offline_access"@);
}

/// The `full-access` preset grants every scope that any other preset grants.
pub proof fn lemma_full_access_covers_presets(name: Seq<char>, scope: Seq<char>)
    requires
        preset_scopes(name) is Some,
        preset_scopes(name)->0.contains(scope),
    ensures
        full_access_scopes().contains(scope),
{
    let s = preset_scopes(name)->0;
    let f = full_access_scopes();
    let i = choose|i: int| 0 <= i < s.len() && s[i] == scope;
    assert(f.contains(s[i])) by {
        if name == "read-only"@ {
            if i == 0 { assert(f[0] == s[0]); }
            if i == 1 { assert(f[1] == s[1]); }
            if i == 2 { assert(f[3] == s[2]); }
            if i == 3 { assert(f[5] == s[3]); }
            if i == 4 { assert(f[7] == s[4]); }
            if i == 5 { assert(f[9] == s[5]); }
            if i == 6 { assert(f[13] == s[6]); }
            if i == 7 { assert(f[15] == s[7]); }
            if i == 8 { assert(f[16] == s[8]); }
            if i == 9 { assert(f[17] == s[9]); }
            if i == 10 { assert(f[18] == s[10]); }
            if i == 11 { assert(f[19] == s[11]); }
            if i == 12 { assert(f[20] == s[12]); }
            if i == 13 { assert(f[24] == s[13]); }
        } else if name == "bookkeeper"@ {
            if i == 0 { assert(f[0] == s[0]); }
            if i == 1 { assert(f[1] == s[1]); }
            if i == 2 { assert(f[3] == s[2]); }
            if i == 3 { assert(f[2] == s[3]); }
            if i == 4 { assert(f[5] == s[4]); }
            if i == 5 { assert(f[4] == s[5]); }
            if i == 6 { assert(f[7] == s[6]); }
            if i == 7 { assert(f[6] == s[7]); }
            if i == 8 { assert(f[9] == s[8]); }
            if i == 9 { assert(f[8] == s[9]); }
            if i == 10 { assert(f[13] == s[10]); }
            if i == 11 { assert(f[12] == s[11]); }
            if i == 12 { assert(f[15] == s[12]); }
            if i == 13 { assert(f[16] == s[13]); }
            if i == 14 { assert(f[17] == s[14]); }
            if i == 15 { assert(f[18] == s[15]); }
            if i == 16 { assert(f[24] == s[16]); }
            if i == 17 { assert(f[23] == s[17]); }
        } else if name == "reports-only"@ {
            reveal_strlit("full-access");
            reveal_strlit("reports-only");
            assert("reports-only"@.len() != "full-access"@.len());
            assert(s == reports_only_scopes());
            if i == 0 { assert(f[0] == s[0]); }
            if i == 1 { assert(f[1] == s[1]); }
            if i == 2 { assert(f[16] == s[2]); }
            if i == 3 { assert(f[17] == s[3]); }
            if i == 4 { assert(f[18] == s[4]); }
            if i == 5 { assert(f[19] == s[5]); }
            if i == 6 { assert(f[20] == s[6]); }
            if i == 7 { assert(f[21] == s[7]); }
            if i == 8 { assert(f[22] == s[8]); }
            if i == 9 { assert(f[15] == s[9]); }
        }
    }
}

/// A scope that only reads: `openid`, `offline_access`, or one ending in `.read`.
pub open spec fn is_read_scope(s: Seq<char>) -> bool {
    ||| s == "openid"@
    ||| s == "offline_access"@
    ||| {
        let n = s.len() as int;
        &&& n >= 5
        &&& s[n - 5] == '.'
        &&& s[n - 4] == 'r'
        &&& s[n - 3] == 'e'
        &&& s[n - 2] == 'a'
        &&& s[n - 1] == 'd'
    }
}

/// The `read-only` and `reports-only` presets grant no scope that writes.
pub proof fn lemma_read_presets_grant_no_write(name: Seq<char>, scope: Seq<char>)
    requires
        name == "read-only"@ || name == "reports-only"@,
        preset_scopes(name)->0.contains(scope),
    ensures
        is_read_scope(scope),
{
    reveal_strlit("openid");
    reveal_strlit("offline_access");
    reveal_strlit("accounting.invoices.read");
    reveal_strlit("accounting.payments.read");
    reveal_strlit("accounting.banktransactions.read");
    reveal_strlit("accounting.manualjournals.read");
    reveal_strlit("accounting.contacts.read");
    reveal_strlit("accounting.settings.read");
    reveal_strlit("accounting.reports.profitandloss.read");
    reveal_strlit("accounting.reports.balancesheet.read");
    reveal_strlit("accounting.reports.aged.read");
    reveal_strlit("accounting.reports.banksummary.read");
    reveal_strlit("accounting.reports.trialbalance.read");
    reveal_strlit("accounting.attachments.read");
    reveal_strlit("accounting.reports.executivesummary.read");
    reveal_strlit("accounting.reports.taxreports.read");
    reveal_strlit("read-only");
    reveal_strlit("bookkeeper");
    reveal_strlit("full-access");
    reveal_strlit("reports-only");
    let s = preset_scopes(name)->0;
    let i = choose|i: int| 0 <= i < s.len() && s[i] == scope;
    if name == "read-only"@ {
        let r = read_only_scopes();
        assert(s == r);
        if i == 0 { assert(is_read_scope(r[0])); }
        if i == 1 { assert(is_read_scope(r[1])); }
        if i == 2 { assert(is_read_scope(r[2])); }
        if i == 3 { assert(is_read_scope(r[3])); }
        if i == 4 { assert(is_read_scope(r[4])); }
        if i == 5 { assert(is_read_scope(r[5])); }
        if i == 6 { assert(is_read_scope(r[6])); }
        if i == 7 { assert(is_read_scope(r[7])); }
        if i == 8 { assert(is_read_scope(r[8])); }
        if i == 9 { assert(is_read_scope(r[9])); }
        if i == 10 { assert(is_read_scope(r[10])); }
        if i == 11 { assert(is_read_scope(r[11])); }
        if i == 12 { assert(is_read_scope(r[12])); }
        if i == 13 { assert(is_read_scope(r[13])); }
    } else {
        let r = reports_only_scopes();
        assert(name.len() != "bookkeeper"@.len() && name.len() != "full-access"@.len());
        assert(s == r);
        if i == 0 { assert(is_read_scope(r[0])); }
        if i == 1 { assert(is_read_scope(r[1])); }
        if i == 2 { assert(is_read_scope(r[2])); }
        if i == 3 { assert(is_read_scope(r[3])); }
        if i == 4 { assert(is_read_scope(r[4])); }
        if i == 5 { assert(is_read_scope(r[5])); }
        if i == 6 { assert(is_read_scope(r[6])); }
        if i == 7 { assert(is_read_scope(r[7])); }
        if i == 8 { assert(is_read_scope(r[8])); }
        if i == 9 { assert(is_read_scope(r[9])); }
    }
}

} // verus!
