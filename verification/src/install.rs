//! The install model: from a snapshot of the directory layout under a
//! root path, build the tree of game versions and of the per-character
//! configuration locations (account / realm / character) found in them.
//!
//! The snapshot types record, level by level, what a directory listing
//! returned, with an explicit `Unreadable` case per branch: a listing
//! that failed is treated as empty for that branch alone, so one
//! unreadable realm does not hide its siblings.

use vstd::prelude::*;

verus! {

/// One character folder under a realm, with whether a `SavedVariables`
/// subdirectory exists for it.
pub struct CharDir {
    pub name: String,
    pub has_vars: bool,
}

/// The listing of a realm folder: its character folders, or a failure.
pub enum CharScan {
    Readable(Vec<CharDir>),
    Unreadable,
}

/// One realm folder under an account.
pub struct RealmDir {
    pub name: String,
    pub characters: CharScan,
}

/// The listing of an account folder: its realm folders, or a failure.
pub enum RealmScan {
    Readable(Vec<RealmDir>),
    Unreadable,
}

/// One account folder under `<version>/WTF/Account`.
pub struct AccountDir {
    pub name: String,
    pub realms: RealmScan,
}

/// The listing of `<version>/WTF/Account`: account folders, or a failure.
pub enum AccountScan {
    Readable(Vec<AccountDir>),
    Unreadable,
}

/// One immediate subdirectory of the root. It is recognized as a game
/// version iff a `WTF/Account` subpath exists under it.
pub struct VersionDir {
    pub name: String,
    pub has_wtf_account: bool,
    pub accounts: AccountScan,
}

/// The listing of the root directory itself: subfolders, or a failure.
pub enum VersionScan {
    Readable(Vec<VersionDir>),
    Unreadable,
}

/// A snapshot of everything discovery reads below one root path.
pub struct RootDir {
    pub path: String,
    pub versions: VersionScan,
}

/// One character's configuration location: account, realm and character
/// name, and whether a per-character `SavedVariables` folder exists.
pub struct Wtf {
    pub account: String,
    pub realm: String,
    pub character: String,
    pub has_vars: bool,
}

/// One installed game version and the configuration leaves found in it,
/// in discovery order. Identity is the name string.
pub struct Version {
    pub name: String,
    pub wtfs: Vec<Wtf>,
}

/// A recognized installation: the root path and its versions, in
/// discovery order. Built only when at least one version was found.
pub struct Install {
    pub install_dir: String,
    pub versions: Vec<Version>,
}

/// Discovery failed: the root has no recognizable version layout.
pub enum DiscoverError {
    NotFound,
}

/// The mathematical value of one configuration leaf.
pub struct WtfEntry {
    pub account: Seq<char>,
    pub realm: Seq<char>,
    pub character: Seq<char>,
    pub has_vars: bool,
}

pub open spec fn wtf_view(w: Wtf) -> WtfEntry {
    WtfEntry { account: w.account@, realm: w.realm@, character: w.character@, has_vars: w.has_vars }
}

pub open spec fn wtf_views(s: Seq<Wtf>) -> Seq<WtfEntry> {
    s.map_values(|w: Wtf| wtf_view(w))
}

pub open spec fn char_items(s: CharScan) -> Seq<CharDir> {
    match s {
        CharScan::Readable(v) => v@,
        CharScan::Unreadable => Seq::empty(),
    }
}

pub open spec fn realm_items(s: RealmScan) -> Seq<RealmDir> {
    match s {
        RealmScan::Readable(v) => v@,
        RealmScan::Unreadable => Seq::empty(),
    }
}

pub open spec fn account_items(s: AccountScan) -> Seq<AccountDir> {
    match s {
        AccountScan::Readable(v) => v@,
        AccountScan::Unreadable => Seq::empty(),
    }
}

pub open spec fn version_items(s: VersionScan) -> Seq<VersionDir> {
    match s {
        VersionScan::Readable(v) => v@,
        VersionScan::Unreadable => Seq::empty(),
    }
}

pub open spec fn char_entry(account: Seq<char>, realm: Seq<char>, c: CharDir) -> WtfEntry {
    WtfEntry { account: account, realm: realm, character: c.name@, has_vars: c.has_vars }
}

/// The leaves contributed by one realm folder of a given account.
pub open spec fn realm_entries(account: Seq<char>, r: RealmDir) -> Seq<WtfEntry> {
    char_items(r.characters).map_values(|c: CharDir| char_entry(account, r.name@, c))
}

pub open spec fn account_entries_upto(a: AccountDir, n: int) -> Seq<WtfEntry>
    decreases n,
{
    if n <= 0 {
        Seq::empty()
    } else {
        account_entries_upto(a, n - 1) + realm_entries(a.name@, realm_items(a.realms)[n - 1])
    }
}

/// The leaves contributed by one account folder: its realms' leaves,
/// concatenated in listing order.
pub open spec fn account_entries(a: AccountDir) -> Seq<WtfEntry> {
    account_entries_upto(a, realm_items(a.realms).len() as int)
}

pub open spec fn version_entries_upto(v: VersionDir, n: int) -> Seq<WtfEntry>
    decreases n,
{
    if n <= 0 {
        Seq::empty()
    } else {
        version_entries_upto(v, n - 1) + account_entries(account_items(v.accounts)[n - 1])
    }
}

/// All leaves of one version folder: its accounts' leaves, concatenated
/// in listing order.
pub open spec fn version_entries(v: VersionDir) -> Seq<WtfEntry> {
    version_entries_upto(v, account_items(v.accounts).len() as int)
}

/// The predicate that recognizes a subfolder of the root as a version.
pub open spec fn keep_pred() -> spec_fn(VersionDir) -> bool {
    |v: VersionDir| v.has_wtf_account
}

/// The version folders discovery keeps, in listing order.
pub open spec fn kept_versions(root: RootDir) -> Seq<VersionDir> {
    version_items(root.versions).filter(keep_pred())
}

/// Unfolds one step of `filter` along a growing prefix.
pub proof fn lemma_filter_take_step<A>(s: Seq<A>, p: spec_fn(A) -> bool, i: int)
    requires
        0 <= i < s.len(),
    ensures
        s.take(i + 1).filter(p) == (if p(s[i]) {
            s.take(i).filter(p).push(s[i])
        } else {
            s.take(i).filter(p)
        }),
{
    reveal(Seq::filter);
    assert(s.take(i + 1).drop_last() =~= s.take(i));
    assert(s.take(i + 1).last() == s[i]);
}

/// Mapping to the mathematical value commutes with appending one leaf.
pub proof fn lemma_wtf_views_push(s: Seq<Wtf>, w: Wtf)
    ensures
        wtf_views(s.push(w)) =~= wtf_views(s).push(wtf_view(w)),
{
}

fn realm_wtfs(account_name: &String, r: &RealmDir, out: &mut Vec<Wtf>)
    ensures
        wtf_views(final(out)@) =~= wtf_views(old(out)@) + realm_entries(account_name@, *r),
{
    match &r.characters {
        CharScan::Unreadable => {
            proof {
                assert(realm_entries(account_name@, *r) =~= Seq::<WtfEntry>::empty());
            }
        },
        CharScan::Readable(chars) => {
            let ghost target = realm_entries(account_name@, *r);
            let mut i: usize = 0;
            while i < chars.len()
                invariant
                    i <= chars.len(),
                    chars@ == char_items(r.characters),
                    target == realm_entries(account_name@, *r),
                    wtf_views(out@) =~= wtf_views(old(out)@) + target.take(i as int),
                decreases chars.len() - i,
            {
                let c = &chars[i];
                let w = Wtf {
                    account: account_name.clone(),
                    realm: r.name.clone(),
                    character: c.name.clone(),
                    has_vars: c.has_vars,
                };
                proof {
                    assert(wtf_view(w) == target[i as int]);
                }
                let ghost pre = out@;
                out.push(w);
                proof {
                    lemma_wtf_views_push(pre, w);
                    assert(target.take(i as int + 1) =~= target.take(i as int).push(target[i as int]));
                    assert(wtf_views(out@) =~= wtf_views(old(out)@) + target.take(i as int + 1));
                }
                i += 1;
            }
            proof {
                assert(target.take(chars@.len() as int) =~= target);
            }
        },
    }
}

fn account_wtfs(a: &AccountDir, out: &mut Vec<Wtf>)
    ensures
        wtf_views(final(out)@) =~= wtf_views(old(out)@) + account_entries(*a),
{
    match &a.realms {
        RealmScan::Unreadable => {
            proof {
                assert(account_entries(*a) =~= Seq::<WtfEntry>::empty());
            }
        },
        RealmScan::Readable(realms) => {
            let mut i: usize = 0;
            while i < realms.len()
                invariant
                    i <= realms.len(),
                    realms@ == realm_items(a.realms),
                    wtf_views(out@) =~= wtf_views(old(out)@) + account_entries_upto(*a, i as int),
                decreases realms.len() - i,
            {
                realm_wtfs(&a.name, &realms[i], out);
                proof {
                    assert(wtf_views(out@) =~= wtf_views(old(out)@) + account_entries_upto(
                        *a,
                        i as int + 1,
                    ));
                }
                i += 1;
            }
        },
    }
}

fn version_wtfs(v: &VersionDir, out: &mut Vec<Wtf>)
    ensures
        wtf_views(final(out)@) =~= wtf_views(old(out)@) + version_entries(*v),
{
    match &v.accounts {
        AccountScan::Unreadable => {
            proof {
                assert(version_entries(*v) =~= Seq::<WtfEntry>::empty());
            }
        },
        AccountScan::Readable(accounts) => {
            let mut i: usize = 0;
            while i < accounts.len()
                invariant
                    i <= accounts.len(),
                    accounts@ == account_items(v.accounts),
                    wtf_views(out@) =~= wtf_views(old(out)@) + version_entries_upto(*v, i as int),
                decreases accounts.len() - i,
            {
                account_wtfs(&accounts[i], out);
                proof {
                    assert(wtf_views(out@) =~= wtf_views(old(out)@) + version_entries_upto(
                        *v,
                        i as int + 1,
                    ));
                }
                i += 1;
            }
        },
    }
}

/// Build the install model from a snapshot of the root directory.
///
/// The result keeps exactly the subfolders that hold a `WTF/Account`
/// subpath, in listing order, and for each of them every
/// account / realm / character leaf, with `has_vars` copied from the
/// snapshot. A root with no recognizable version reports `NotFound`
/// instead of succeeding empty.
pub fn discover(root: &RootDir) -> (r: Result<Install, DiscoverError>)
    ensures
        ({
            let kept = kept_versions(*root);
            match r {
                Ok(inst) => kept.len() > 0 && inst.install_dir@ == root.path@
                    && inst.versions@.len() == kept.len() && (forall|k: int|
                    0 <= k < kept.len() ==> (#[trigger] inst.versions@[k]).name@ == kept[k].name@
                        && wtf_views(inst.versions@[k].wtfs@) =~= version_entries(kept[k])),
                Err(e) => e == DiscoverError::NotFound && kept.len() == 0,
            }
        }),
{
    let mut versions: Vec<Version> = Vec::new();
    match &root.versions {
        VersionScan::Unreadable => {
            proof {
                reveal(Seq::filter);
                assert(kept_versions(*root).len() == 0);
            }
        },
        VersionScan::Readable(dirs) => {
            let mut i: usize = 0;
            while i < dirs.len()
                invariant
                    i <= dirs.len(),
                    dirs@ == version_items(root.versions),
                    versions@.len() == dirs@.take(i as int).filter(keep_pred()).len(),
                    forall|k: int|
                        0 <= k < versions@.len() ==> {
                            let kv = dirs@.take(i as int).filter(keep_pred());
                            (#[trigger] versions@[k]).name@ == kv[k].name@ && wtf_views(
                                versions@[k].wtfs@,
                            ) =~= version_entries(kv[k])
                        },
                decreases dirs.len() - i,
            {
                proof {
                    lemma_filter_take_step(dirs@, keep_pred(), i as int);
                }
                if dirs[i].has_wtf_account {
                    let mut wtfs: Vec<Wtf> = Vec::new();
                    version_wtfs(&dirs[i], &mut wtfs);
                    proof {
                        assert(wtf_views(wtfs@) =~= Seq::<WtfEntry>::empty() + version_entries(
                            dirs@[i as int],
                        ));
                        assert(wtf_views(wtfs@) =~= version_entries(dirs@[i as int]));
                    }
                    let ver = Version { name: dirs[i].name.clone(), wtfs };
                    versions.push(ver);
                }
                i += 1;
            }
            proof {
                assert(dirs@.take(dirs@.len() as int) =~= dirs@);
            }
        },
    }
    if versions.len() == 0 {
        return Err(DiscoverError::NotFound);
    }
    Ok(Install { install_dir: root.path.clone(), versions })
}

proof fn lemma_account_entries_upto_len(a: AccountDir, n: int, c: nat)
    requires
        0 <= n <= realm_items(a.realms).len(),
        forall|j: int|
            0 <= j < n ==> char_items(
                #[trigger] realm_items(a.realms)[j].characters,
            ).len() == c,
    ensures
        account_entries_upto(a, n).len() == n * c,
    decreases n,
{
    if n > 0 {
        lemma_account_entries_upto_len(a, n - 1, c);
        assert(account_entries_upto(a, n) == account_entries_upto(a, n - 1) + realm_entries(
            a.name@,
            realm_items(a.realms)[n - 1],
        ));
        assert(realm_entries(a.name@, realm_items(a.realms)[n - 1]).len() == c);
        assert(account_entries_upto(a, n).len() == (n - 1) * c + c);
        assert((n - 1) * c + c == n * c) by (nonlinear_arith);
    } else {
        assert(account_entries_upto(a, n).len() == 0);
        assert(n * c == 0);
    }
}

proof fn lemma_version_entries_upto_len(v: VersionDir, n: int, k: nat)
    requires
        0 <= n <= account_items(v.accounts).len(),
        forall|i: int|
            0 <= i < n ==> account_entries(#[trigger] account_items(v.accounts)[i]).len() == k,
    ensures
        version_entries_upto(v, n).len() == n * k,
    decreases n,
{
    if n > 0 {
        lemma_version_entries_upto_len(v, n - 1, k);
        assert(version_entries_upto(v, n) == version_entries_upto(v, n - 1) + account_entries(
            account_items(v.accounts)[n - 1],
        ));
        assert(version_entries_upto(v, n).len() == (n - 1) * k + k);
        assert((n - 1) * k + k == n * k) by (nonlinear_arith);
    } else {
        assert(version_entries_upto(v, n).len() == 0);
        assert(n * k == 0);
    }
}

/// Law: a version folder with `a` accounts, `r` realms in each account
/// and `c` characters in each realm yields exactly `a * r * c`
/// configuration leaves.
pub proof fn lemma_uniform_counts(v: VersionDir, a: nat, r: nat, c: nat)
    requires
        account_items(v.accounts).len() == a,
        forall|i: int|
            0 <= i < a ==> realm_items(#[trigger] account_items(v.accounts)[i].realms).len() == r,
        forall|i: int, j: int|
            0 <= i < a && 0 <= j < r ==> char_items(
                #[trigger] realm_items(account_items(v.accounts)[i].realms)[j].characters,
            ).len() == c,
    ensures
        version_entries(v).len() == a * r * c,
{
    assert forall|i: int| 0 <= i < a implies account_entries(
        #[trigger] account_items(v.accounts)[i],
    ).len() == (r * c) as nat by {
        lemma_account_entries_upto_len(account_items(v.accounts)[i], r as int, c);
    }
    lemma_version_entries_upto_len(v, a as int, (r * c) as nat);
    assert(a * (r * c) == a * r * c) by (nonlinear_arith);
}

/// The predicate behind source-role filtering: only leaves with saved
/// variables can be copied from.
pub open spec fn vars_pred() -> spec_fn(Wtf) -> bool {
    |w: Wtf| w.has_vars
}

/// The configuration leaves of a version offered for selection.
///
/// For the source role, leaves without a `SavedVariables` folder are
/// excluded — there is nothing to copy from them; the destination role
/// offers every leaf, since copying creates the target layout.
pub fn wtf_choices(v: &Version, is_source: bool) -> (r: Vec<Wtf>)
    ensures
        is_source ==> wtf_views(r@) =~= wtf_views(v.wtfs@.filter(vars_pred())),
        !is_source ==> wtf_views(r@) =~= wtf_views(v.wtfs@),
{
    let mut r: Vec<Wtf> = Vec::new();
    let mut i: usize = 0;
    while i < v.wtfs.len()
        invariant
            i <= v.wtfs.len(),
            is_source ==> wtf_views(r@) =~= wtf_views(v.wtfs@.take(i as int).filter(vars_pred())),
            !is_source ==> wtf_views(r@) =~= wtf_views(v.wtfs@.take(i as int)),
        decreases v.wtfs.len() - i,
    {
        proof {
            lemma_filter_take_step(v.wtfs@, vars_pred(), i as int);
        }
        let w = &v.wtfs[i];
        if !is_source || w.has_vars {
            let c = Wtf {
                account: w.account.clone(),
                realm: w.realm.clone(),
                character: w.character.clone(),
                has_vars: w.has_vars,
            };
            proof {
                assert(wtf_view(c) == wtf_view(v.wtfs@[i as int]));
            }
            let ghost pre = r@;
            r.push(c);
            proof {
                lemma_wtf_views_push(pre, c);
            }
        }
        proof {
            assert(v.wtfs@.take(i as int + 1) =~= v.wtfs@.take(i as int).push(v.wtfs@[i as int]));
            if is_source {
                lemma_wtf_views_push(v.wtfs@.take(i as int).filter(vars_pred()), v.wtfs@[i as int]);
            } else {
                lemma_wtf_views_push(v.wtfs@.take(i as int), v.wtfs@[i as int]);
            }
        }
        i += 1;
    }
    proof {
        assert(v.wtfs@.take(v.wtfs@.len() as int) =~= v.wtfs@);
    }
    r
}

} // verus!
