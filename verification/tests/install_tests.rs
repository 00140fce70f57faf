use wow_profile_copy::install::AccountDir;
use wow_profile_copy::install::AccountScan;
use wow_profile_copy::install::CharDir;
use wow_profile_copy::install::CharScan;
use wow_profile_copy::install::DiscoverError;
use wow_profile_copy::install::RealmDir;
use wow_profile_copy::install::RealmScan;
use wow_profile_copy::install::RootDir;
use wow_profile_copy::install::Version;
use wow_profile_copy::install::VersionDir;
use wow_profile_copy::install::VersionScan;
use wow_profile_copy::install::Wtf;
use wow_profile_copy::install::discover;
use wow_profile_copy::install::wtf_choices;

fn chardir(name: &str, has_vars: bool) -> CharDir {
    CharDir { name: name.to_string(), has_vars }
}

fn realm(name: &str, chars: Vec<CharDir>) -> RealmDir {
    RealmDir { name: name.to_string(), characters: CharScan::Readable(chars) }
}

fn account(name: &str, realms: Vec<RealmDir>) -> AccountDir {
    AccountDir { name: name.to_string(), realms: RealmScan::Readable(realms) }
}

fn version(name: &str, recognized: bool, accounts: Vec<AccountDir>) -> VersionDir {
    VersionDir {
        name: name.to_string(),
        has_wtf_account: recognized,
        accounts: AccountScan::Readable(accounts),
    }
}

fn sample_root() -> RootDir {
    RootDir {
        path: "/wow".to_string(),
        versions: VersionScan::Readable(vec![
            version(
                "_retail_",
                true,
                vec![
                    account(
                        "ACC1",
                        vec![
                            realm("RealmA", vec![chardir("Hero", true), chardir("Mule", false)]),
                            realm("RealmB", vec![chardir("Alt", true)]),
                        ],
                    ),
                    account("ACC2", vec![realm("RealmA", vec![chardir("Bank", false)])]),
                ],
            ),
            version("Screenshots", false, vec![]),
            version("_classic_", true, vec![account("ACC1", vec![])]),
        ]),
    }
}

#[test]
fn discovery_keeps_recognized_versions_in_order() {
    let inst = discover(&sample_root()).ok().unwrap();
    assert_eq!(inst.install_dir, "/wow");
    assert_eq!(inst.versions.len(), 2);
    assert_eq!(inst.versions[0].name, "_retail_");
    assert_eq!(inst.versions[1].name, "_classic_");
}

#[test]
fn discovery_lists_every_leaf_with_vars_flag() {
    let inst = discover(&sample_root()).ok().unwrap();
    let wtfs = &inst.versions[0].wtfs;
    assert_eq!(wtfs.len(), 4);
    assert_eq!(wtfs[0].account, "ACC1");
    assert_eq!(wtfs[0].realm, "RealmA");
    assert_eq!(wtfs[0].character, "Hero");
    assert!(wtfs[0].has_vars);
    assert_eq!(wtfs[1].character, "Mule");
    assert!(!wtfs[1].has_vars);
    assert_eq!(wtfs[2].realm, "RealmB");
    assert_eq!(wtfs[2].character, "Alt");
    assert!(wtfs[2].has_vars);
    assert_eq!(wtfs[3].account, "ACC2");
    assert_eq!(wtfs[3].character, "Bank");
    assert!(!wtfs[3].has_vars);
    assert_eq!(inst.versions[1].wtfs.len(), 0);
}

#[test]
fn discovery_counts_are_products_in_the_uniform_case() {
    // 2 accounts x 2 realms x 2 characters
    let mk_realm = |r: &str| realm(r, vec![chardir("C1", true), chardir("C2", false)]);
    let mk_account = |a: &str| account(a, vec![mk_realm("R1"), mk_realm("R2")]);
    let root = RootDir {
        path: "/wow".to_string(),
        versions: VersionScan::Readable(vec![version(
            "_retail_",
            true,
            vec![mk_account("A1"), mk_account("A2")],
        )]),
    };
    let inst = discover(&root).ok().unwrap();
    assert_eq!(inst.versions.len(), 1);
    assert_eq!(inst.versions[0].wtfs.len(), 2 * 2 * 2);
}

#[test]
fn discovery_without_versions_is_not_found() {
    let root = RootDir {
        path: "/empty".to_string(),
        versions: VersionScan::Readable(vec![version("Data", false, vec![])]),
    };
    assert!(matches!(discover(&root), Err(DiscoverError::NotFound)));
}

#[test]
fn discovery_of_unreadable_root_is_not_found() {
    let root = RootDir { path: "/gone".to_string(), versions: VersionScan::Unreadable };
    assert!(matches!(discover(&root), Err(DiscoverError::NotFound)));
}

#[test]
fn unreadable_branches_are_skipped_not_fatal() {
    let root = RootDir {
        path: "/wow".to_string(),
        versions: VersionScan::Readable(vec![version(
            "_retail_",
            true,
            vec![
                AccountDir { name: "DARK".to_string(), realms: RealmScan::Unreadable },
                account(
                    "ACC1",
                    vec![
                        RealmDir {
                            name: "Sealed".to_string(),
                            characters: CharScan::Unreadable,
                        },
                        realm("Open", vec![chardir("Hero", true)]),
                    ],
                ),
            ],
        )]),
    };
    let inst = discover(&root).ok().unwrap();
    assert_eq!(inst.versions[0].wtfs.len(), 1);
    assert_eq!(inst.versions[0].wtfs[0].account, "ACC1");
    assert_eq!(inst.versions[0].wtfs[0].realm, "Open");
}

fn wtf(character: &str, has_vars: bool) -> Wtf {
    Wtf {
        account: "ACC1".to_string(),
        realm: "RealmA".to_string(),
        character: character.to_string(),
        has_vars,
    }
}

#[test]
fn source_choices_exclude_leaves_without_saved_variables() {
    let v = Version {
        name: "_retail_".to_string(),
        wtfs: vec![wtf("Hero", true), wtf("Mule", false), wtf("Alt", true)],
    };
    let src = wtf_choices(&v, true);
    assert_eq!(src.len(), 2);
    assert_eq!(src[0].character, "Hero");
    assert_eq!(src[1].character, "Alt");
    assert!(src.iter().all(|w| w.has_vars));
}

#[test]
fn destination_choices_exclude_nothing() {
    let v = Version {
        name: "_retail_".to_string(),
        wtfs: vec![wtf("Hero", true), wtf("Mule", false), wtf("Alt", true)],
    };
    let dst = wtf_choices(&v, false);
    assert_eq!(dst.len(), 3);
    assert_eq!(dst[1].character, "Mule");
    assert!(!dst[1].has_vars);
}
