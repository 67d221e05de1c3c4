use gfv::sync::{
    backup_commit, changes_to_confirm, choose_commit_message, classify_status, plan_backup,
    plan_restore, platform_matches, remote_steps, select_branch, sync_branch, BackupAction,
    EntryState, FileStatus, RemoteSteps, RestoreAction,
};

fn state(src: bool, src_dir: bool, src_len: Option<u64>, stored: bool, stored_dir: bool, stored_len: Option<u64>) -> EntryState {
    EntryState {
        source_exists: src,
        source_is_dir: src_dir,
        source_len: src_len,
        stored_exists: stored,
        stored_is_dir: stored_dir,
        stored_len,
    }
}

#[test]
fn backup_plan_per_entry() {
    let states = vec![
        state(false, false, None, true, false, Some(3)),
        state(true, false, Some(3), false, false, None),
        state(true, true, None, true, true, None),
    ];
    assert_eq!(
        plan_backup(&states),
        vec![BackupAction::SkipMissingSource, BackupAction::CopyFile, BackupAction::ReplaceDirectory]
    );
}

#[test]
fn dry_run_restore_writes_nothing() {
    let states = vec![
        state(true, false, Some(1), true, false, Some(2)),
        state(false, false, None, true, true, None),
        state(true, false, Some(1), false, false, None),
    ];
    let platforms = vec![None, Some("linux".to_string()), None];
    let plan = plan_restore(&states, &platforms, "linux", true);
    assert_eq!(plan, vec![RestoreAction::WouldRestore, RestoreAction::WouldRestore, RestoreAction::SkipNotStored]);
}

#[test]
fn restore_plan_copies_stored_copies() {
    let states = vec![
        state(true, false, Some(1), true, false, Some(2)),
        state(false, false, None, true, true, None),
    ];
    let platforms = vec![None, None];
    let plan = plan_restore(&states, &platforms, "macos", false);
    assert_eq!(plan, vec![RestoreAction::RestoreFile, RestoreAction::ReplaceDirectory]);
}

#[test]
fn windows_entry_skipped_on_linux() {
    let states = vec![state(true, false, Some(1), true, false, Some(1))];
    let platforms = vec![Some("windows".to_string())];
    assert_eq!(plan_restore(&states, &platforms, "linux", false), vec![RestoreAction::SkipPlatform]);
    assert_eq!(plan_restore(&states, &platforms, "linux", true), vec![RestoreAction::SkipPlatform]);
}

#[test]
fn platform_restrictions() {
    assert!(platform_matches(&None, "linux"));
    assert!(platform_matches(&Some("linux".to_string()), "linux"));
    assert!(!platform_matches(&Some("macos".to_string()), "linux"));
    assert!(platform_matches(&Some("plan9".to_string()), "linux"));
}

#[test]
fn confirmation_lists_length_mismatches() {
    let states = vec![
        state(true, false, Some(1), true, false, Some(2)),
        state(true, false, Some(5), true, false, Some(5)),
        state(false, false, None, true, false, Some(2)),
        state(true, false, Some(7), true, false, Some(8)),
    ];
    assert_eq!(changes_to_confirm(&states, false, false), vec![0, 3]);
    assert!(changes_to_confirm(&states, true, false).is_empty());
    assert!(changes_to_confirm(&states, false, true).is_empty());
}

#[test]
fn status_classification() {
    assert_eq!(classify_status(&state(false, false, None, true, false, Some(1))), FileStatus::MissingSource);
    assert_eq!(classify_status(&state(true, false, Some(1), false, false, None)), FileStatus::Modified);
    assert_eq!(classify_status(&state(true, false, Some(1), true, false, Some(2))), FileStatus::Modified);
    assert_eq!(classify_status(&state(true, false, Some(2), true, false, Some(2))), FileStatus::UpToDate);
}

#[test]
fn commit_message_priority() {
    assert_eq!(choose_commit_message(Some("mine".to_string()), Some("ai".to_string())), "mine");
    assert_eq!(choose_commit_message(None, Some("ai".to_string())), "ai");
    assert_eq!(choose_commit_message(None, None), "Update vault");
}

#[test]
fn unchanged_backup_makes_no_commit() {
    assert_eq!(backup_commit(false, Some("msg".to_string()), None), None);
    assert_eq!(backup_commit(true, None, None), Some("Update vault".to_string()));
}

#[test]
fn remote_sync_steps() {
    assert_eq!(remote_steps(false, true), RemoteSteps { fetch: false, pull: false, push: false });
    assert_eq!(remote_steps(true, false), RemoteSteps { fetch: true, pull: false, push: true });
    assert_eq!(remote_steps(true, true), RemoteSteps { fetch: true, pull: true, push: true });
}

#[test]
fn branch_selection_for_new_vault() {
    let default = "main".to_string();
    assert_eq!(select_branch(None, None, &default), "main");
    assert_eq!(select_branch(None, Some("trunk".to_string()), &default), "trunk");
    assert_eq!(select_branch(Some("dev".to_string()), Some("trunk".to_string()), &default), "dev");
    assert_eq!(sync_branch(None, &default), "main");
    assert_eq!(sync_branch(Some("x".to_string()), &default), "x");
}
