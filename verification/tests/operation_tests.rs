use wow_profile_copy::engine::RunState;
use wow_profile_copy::install::Install;
use wow_profile_copy::install::Version;
use wow_profile_copy::install::Wtf;
use wow_profile_copy::layout::account_file;
use wow_profile_copy::layout::cache_path;
use wow_profile_copy::layout::char_file;
use wow_profile_copy::layout::copied_line_str;
use wow_profile_copy::layout::copy_err_line_str;
use wow_profile_copy::layout::created_line_str;
use wow_profile_copy::layout::has_lua_ext;
use wow_profile_copy::layout::join;
use wow_profile_copy::layout::removed_line_str;
use wow_profile_copy::layout::savedvars_path;
use wow_profile_copy::operation::Message;
use wow_profile_copy::operation::Operation;

fn wtf(account: &str, character: &str) -> Wtf {
    Wtf {
        account: account.to_string(),
        realm: "RealmA".to_string(),
        character: character.to_string(),
        has_vars: true,
    }
}

fn version(name: &str) -> Version {
    Version { name: name.to_string(), wtfs: vec![] }
}

fn install() -> Install {
    Install {
        install_dir: "/wow".to_string(),
        versions: vec![version("_retail_"), version("_classic_")],
    }
}

fn ready_operation() -> Operation {
    let mut op = Operation::new(Some(install()));
    op.update(Message::Version(version("_retail_"), true));
    op.update(Message::Wtf(wtf("ACC1", "Hero"), true));
    op.update(Message::Version(version("_classic_"), false));
    op.update(Message::Wtf(wtf("ACC2", "Alt"), false));
    op
}

#[test]
fn new_state_has_nothing_selected_and_overwrite_enabled() {
    let op = Operation::new(None);
    assert!(op.install.is_none());
    assert!(op.src_ver.is_none() && op.src_wtf.is_none());
    assert!(op.dst_ver.is_none() && op.dst_wtf.is_none());
    assert!(op.copy_logs.is_none());
    assert!(op.overwrite_account);
    assert!(!op.is_ready());
}

#[test]
fn choosing_an_install_clears_both_sides() {
    let mut op = ready_operation();
    op.update(Message::Install(Some(install())));
    assert!(op.install.is_some());
    assert!(op.src_ver.is_none() && op.src_wtf.is_none());
    assert!(op.dst_ver.is_none() && op.dst_wtf.is_none());
}

#[test]
fn cancelled_install_chooser_changes_nothing() {
    let mut op = ready_operation();
    op.update(Message::Install(None));
    assert!(op.is_ready());
}

#[test]
fn reset_clears_only_the_named_side() {
    let mut op = ready_operation();
    op.update(Message::Reset(true));
    assert!(op.src_ver.is_none() && op.src_wtf.is_none());
    assert!(op.dst_ver.is_some() && op.dst_wtf.is_some());
}

#[test]
fn leaf_selection_needs_a_version_first() {
    let mut op = Operation::new(Some(install()));
    op.update(Message::Wtf(wtf("ACC1", "Hero"), true));
    assert!(op.src_wtf.is_none());
    op.update(Message::Version(version("_retail_"), true));
    op.update(Message::Wtf(wtf("ACC1", "Hero"), true));
    assert!(op.src_wtf.is_some());
}

#[test]
fn overwrite_toggle_sets_the_flag() {
    let mut op = Operation::new(None);
    op.update(Message::OverwriteToggle(false));
    assert!(!op.overwrite_account);
    op.update(Message::OverwriteToggle(true));
    assert!(op.overwrite_account);
}

#[test]
fn copy_result_error_becomes_a_single_line_log() {
    let mut op = Operation::new(None);
    op.update(Message::CopyResult(Err("operation not ready for copying!".to_string())));
    assert_eq!(op.copy_logs, Some(vec!["operation not ready for copying!".to_string()]));
}

#[test]
fn copy_result_log_is_kept_as_is() {
    let mut op = Operation::new(None);
    let log = vec!["copied \"a.lua\"".to_string(), "removed \"cache.md5\"".to_string()];
    op.update(Message::CopyResult(Ok(log.clone())));
    assert_eq!(op.copy_logs, Some(log));
}

#[test]
fn readiness_needs_every_selection() {
    let mut op = Operation::new(Some(install()));
    assert!(!op.is_ready());
    op.update(Message::Version(version("_retail_"), true));
    op.update(Message::Wtf(wtf("ACC1", "Hero"), true));
    assert!(!op.is_ready());
    op.update(Message::Version(version("_classic_"), false));
    op.update(Message::Wtf(wtf("ACC2", "Alt"), false));
    assert!(op.is_ready());
}

#[test]
fn same_account_and_same_version_are_unknown_until_chosen() {
    let mut op = Operation::new(Some(install()));
    assert_eq!(op.is_same_account(), None);
    assert_eq!(op.is_same_ver(), None);
    op.update(Message::Version(version("_retail_"), true));
    op.update(Message::Version(version("_retail_"), false));
    assert_eq!(op.is_same_ver(), Some(true));
    op.update(Message::Wtf(wtf("ACC1", "Hero"), true));
    op.update(Message::Wtf(wtf("ACC2", "Alt"), false));
    assert_eq!(op.is_same_account(), Some(false));
    op.update(Message::Wtf(wtf("ACC1", "Alt"), false));
    assert_eq!(op.is_same_account(), Some(true));
}

#[test]
fn begin_copy_before_ready_fails_with_the_not_ready_message() {
    let op = Operation::new(Some(install()));
    match op.begin_copy() {
        Err(m) => assert_eq!(m, "operation not ready for copying!"),
        Ok(_) => panic!("an incomplete selection must not start a run"),
    }
}

#[test]
fn begin_copy_when_ready_starts_a_run_for_the_selection() {
    let op = ready_operation();
    let eng = op.begin_copy().ok().unwrap();
    assert!(eng.log.is_empty());
    assert_eq!(eng.params.install_dir, "/wow");
    assert_eq!(eng.params.src_ver, "_retail_");
    assert_eq!(eng.params.dst_account, "ACC2");
    assert!(matches!(eng.outcome(), RunState::Running));
}

#[test]
fn path_helpers_join_with_a_separator() {
    assert_eq!(join("/wow", "_retail_"), "/wow/_retail_");
    assert_eq!(savedvars_path("/wow/a"), "/wow/a/SavedVariables");
    assert_eq!(cache_path("/wow/a"), "/wow/a/cache.md5");
}

#[test]
fn catalogs_match_the_known_file_lists() {
    let acct: Vec<String> = (0..4).map(account_file).collect();
    assert_eq!(
        acct,
        vec![
            "bindings-cache.wtf".to_string(),
            "config-cache.wtf".to_string(),
            "macros-cache.txt".to_string(),
            "edit-mode-cache-account.txt".to_string(),
        ]
    );
    let ch: Vec<String> = (0..5).map(char_file).collect();
    assert_eq!(
        ch,
        vec![
            "AddOns.txt".to_string(),
            "config-cache.wtf".to_string(),
            "layout-local.txt".to_string(),
            "macros-cache.txt".to_string(),
            "edit-mode-cache-character.txt".to_string(),
        ]
    );
}

#[test]
fn log_lines_render_exactly() {
    assert_eq!(copied_line_str("a.lua"), "copied \"a.lua\"");
    assert_eq!(
        copy_err_line_str("/wow/x", "permission denied"),
        "error copying \"/wow/x\": permission denied"
    );
    assert_eq!(removed_line_str("cache.md5"), "removed \"cache.md5\"");
    assert_eq!(
        created_line_str("/wow/sv"),
        "destination savedvariables dir missing, creating: \"/wow/sv\""
    );
}

#[test]
fn lua_extension_needs_a_stem_and_exact_case() {
    assert!(has_lua_ext("a.lua"));
    assert!(has_lua_ext("some.addon.lua"));
    assert!(!has_lua_ext("notes.txt"));
    assert!(!has_lua_ext(".lua"));
    assert!(!has_lua_ext("lua"));
    assert!(!has_lua_ext("A.LUA"));
}
