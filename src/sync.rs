//! The decisions of backup, restore and status: for each tracked entry, what
//! to copy where, what to skip, and how to report it; and around them, when
//! to commit, with which message, and how to synchronise with the remote.
use vstd::prelude::*;

use crate::text::same_text;

verus! {

/// What is known on disk of one tracked entry: its source copy and its
/// stored copy in the vault. A length is `None` where it could not be read.
#[derive(Debug, Clone, Copy, PartialEq, Eq)]
pub struct EntryState {
    pub source_exists: bool,
    pub source_is_dir: bool,
    pub source_len: Option<u64>,
    pub stored_exists: bool,
    pub stored_is_dir: bool,
    pub stored_len: Option<u64>,
}

/// What backup does with one entry.
#[derive(Debug, Clone, Copy, PartialEq, Eq)]
pub enum BackupAction {
    /// The source is missing: warn and go on.
    SkipMissingSource,
    /// Copy the source file over the stored copy, creating its parent.
    CopyFile,
    /// Remove any stored directory, then copy the source tree afresh.
    ReplaceDirectory,
}

/// What restore does with one entry.
#[derive(Debug, Clone, Copy, PartialEq, Eq)]
pub enum RestoreAction {
    /// The entry is restricted to another operating system.
    SkipPlatform,
    /// There is no stored copy to restore from.
    SkipNotStored,
    /// Dry run: report the copy that would be made.
    WouldRestore,
    /// Copy the stored file over the source, creating its parent.
    RestoreFile,
    /// Remove any source directory, then copy the stored tree afresh.
    ReplaceDirectory,
}

/// How status classifies one entry.
#[derive(Debug, Clone, Copy, PartialEq, Eq)]
pub enum FileStatus {
    /// The source copy is missing.
    MissingSource,
    /// The stored copy is missing, or the two copies differ in length.
    Modified,
    UpToDate,
}

/// The steps of synchronising with a configured remote after a backup.
#[derive(Debug, Clone, Copy, PartialEq, Eq)]
pub struct RemoteSteps {
    /// Retrieve the remote history first; its failure is ignored.
    pub fetch: bool,
    /// Integrate the remote branch before pushing.
    pub pull: bool,
    pub push: bool,
}

pub open spec fn backup_action_of(s: EntryState) -> BackupAction {
    if !s.source_exists {
        BackupAction::SkipMissingSource
    } else if s.source_is_dir {
        BackupAction::ReplaceDirectory
    } else {
        BackupAction::CopyFile
    }
}

/// The two copies differ in length, both lengths being known. Content is not
/// compared: equal lengths count as unchanged.
pub open spec fn lengths_differ(s: EntryState) -> bool {
    match (s.source_len, s.stored_len) {
        (Some(a), Some(b)) => a != b,
        _ => false,
    }
}

/// Restore would overwrite a source copy that looks locally modified.
pub open spec fn local_change(s: EntryState) -> bool {
    s.source_exists && s.stored_exists && lengths_differ(s)
}

pub open spec fn status_of(s: EntryState) -> FileStatus {
    if !s.source_exists {
        FileStatus::MissingSource
    } else if !s.stored_exists || s.source_len.is_none() || s.stored_len.is_none()
        || lengths_differ(s) {
        FileStatus::Modified
    } else {
        FileStatus::UpToDate
    }
}

/// The operating systems that a platform restriction can name.
pub open spec fn known_platform(p: Seq<char>) -> bool {
    p == "macos"@ || p == "linux"@ || p == "windows"@
}

/// An entry restricted to `platform` may be restored on `os`: an entry
/// without a restriction, or with one that names no known system, goes
/// everywhere.
pub open spec fn platform_allows(platform: Option<Seq<char>>, os: Seq<char>) -> bool {
    match platform {
        None => true,
        Some(p) => !known_platform(p) || p == os,
    }
}

pub open spec fn restore_action_of(
    s: EntryState,
    platform: Option<Seq<char>>,
    os: Seq<char>,
    dry_run: bool,
) -> RestoreAction {
    if !platform_allows(platform, os) {
        RestoreAction::SkipPlatform
    } else if !s.stored_exists {
        RestoreAction::SkipNotStored
    } else if dry_run {
        RestoreAction::WouldRestore
    } else if s.stored_is_dir {
        RestoreAction::ReplaceDirectory
    } else {
        RestoreAction::RestoreFile
    }
}

/// The action writes to the source location.
pub open spec fn writes_source(a: RestoreAction) -> bool {
    a is RestoreFile || a is ReplaceDirectory
}

/// The view of an optional text.
pub open spec fn opt_view(o: Option<String>) -> Option<Seq<char>> {
    match o {
        Some(s) => Some(s@),
        None => None,
    }
}

/// The message that the commit of a backup carries: the caller's, else
/// the provider's, else a fixed one.
pub open spec fn commit_message_of(explicit: Option<String>, generated: Option<String>) -> Seq<
    char,
> {
    match explicit {
        Some(m) => m@,
        None => match generated {
            Some(g) => g@,
            None => "Update vault"@,
        },
    }
}

/// What backup does with one entry.
pub fn backup_action(s: &EntryState) -> (r: BackupAction)
    ensures
        r == backup_action_of(*s),
{
    if !s.source_exists {
        BackupAction::SkipMissingSource
    } else if s.source_is_dir {
        BackupAction::ReplaceDirectory
    } else {
        BackupAction::CopyFile
    }
}

/// What backup does with each entry, in order.
pub fn plan_backup(states: &Vec<EntryState>) -> (r: Vec<BackupAction>)
    ensures
        r.len() == states.len(),
        forall|i: int| 0 <= i < states.len() ==> r@[i] == backup_action_of(#[trigger] states@[i]),
        r@ == backup_plan_of(states@),
{
    let mut r: Vec<BackupAction> = Vec::new();
    let mut i: usize = 0;
    while i < states.len()
        invariant
            i <= states.len(),
            r.len() == i,
            forall|j: int| 0 <= j < i ==> r@[j] == backup_action_of(#[trigger] states@[j]),
        decreases states.len() - i,
    {
        r.push(backup_action(&states[i]));
        i = i + 1;
    }
    assert(r@ =~= backup_plan_of(states@));
    r
}

/// Whether an entry restricted to `platform` may be restored on `os`.
pub fn platform_matches(platform: &Option<String>, os: &str) -> (r: bool)
    ensures
        r == platform_allows(opt_view(*platform), os@),
{
    match platform {
        None => true,
        Some(p) => {
            let known = same_text(p.as_str(), "macos") || same_text(p.as_str(), "linux")
                || same_text(p.as_str(), "windows");
            !known || same_text(p.as_str(), os)
        },
    }
}

/// What restore does with one entry restricted to `platform`, on `os`.
pub fn restore_action(s: &EntryState, platform: &Option<String>, os: &str, dry_run: bool) -> (r:
    RestoreAction)
    ensures
        r == restore_action_of(*s, opt_view(*platform), os@, dry_run),
{
    if !platform_matches(platform, os) {
        RestoreAction::SkipPlatform
    } else if !s.stored_exists {
        RestoreAction::SkipNotStored
    } else if dry_run {
        RestoreAction::WouldRestore
    } else if s.stored_is_dir {
        RestoreAction::ReplaceDirectory
    } else {
        RestoreAction::RestoreFile
    }
}

/// What restore does with each entry, in order; `platforms[i]` is the
/// restriction of entry `i`. A dry run writes nothing.
pub fn plan_restore(
    states: &Vec<EntryState>,
    platforms: &Vec<Option<String>>,
    os: &str,
    dry_run: bool,
) -> (r: Vec<RestoreAction>)
    requires
        platforms.len() == states.len(),
    ensures
        r.len() == states.len(),
        forall|i: int|
            0 <= i < states.len() ==> r@[i] == restore_action_of(
                #[trigger] states@[i],
                opt_view(platforms@[i]),
                os@,
                dry_run,
            ),
        dry_run ==> forall|i: int| 0 <= i < r.len() ==> !writes_source(#[trigger] r@[i]),
{
    let mut r: Vec<RestoreAction> = Vec::new();
    let mut i: usize = 0;
    while i < states.len()
        invariant
            platforms.len() == states.len(),
            i <= states.len(),
            r.len() == i,
            forall|j: int|
                0 <= j < i ==> r@[j] == restore_action_of(
                    #[trigger] states@[j],
                    opt_view(platforms@[j]),
                    os@,
                    dry_run,
                ),
        decreases states.len() - i,
    {
        r.push(restore_action(&states[i], &platforms[i], os, dry_run));
        i = i + 1;
    }
    assert forall|i: int| dry_run && 0 <= i < r.len() implies !writes_source(#[trigger] r@[i]) by {
        lemma_dry_run_writes_nothing(states@[i], opt_view(platforms@[i]), os@);
    }
    r
}

/// Whether the two copies of an entry differ in length.
pub fn has_local_change(s: &EntryState) -> (r: bool)
    ensures
        r == local_change(*s),
{
    if !s.source_exists || !s.stored_exists {
        return false;
    }
    match (s.source_len, s.stored_len) {
        (Some(a), Some(b)) => a != b,
        _ => false,
    }
}

/// The entries whose source copy restore would overwrite although it looks
/// locally modified; none unless restore will ask (neither forced nor a dry
/// run).
pub fn changes_to_confirm(states: &Vec<EntryState>, force: bool, dry_run: bool) -> (r: Vec<usize>)
    ensures
        force || dry_run ==> r.len() == 0,
        !force && !dry_run ==> (forall|k: int|
            0 <= k < r.len() ==> r@[k] < states.len() && local_change(states@[#[trigger] r@[k] as int]))
            && (forall|i: int|
            0 <= i < states.len() && local_change(#[trigger] states@[i]) ==> r@.contains(
                i as usize,
            )) && (forall|a: int, b: int| 0 <= a < b < r.len() ==> r@[a] < r@[b]),
{
    let mut r: Vec<usize> = Vec::new();
    if force || dry_run {
        return r;
    }
    let mut i: usize = 0;
    while i < states.len()
        invariant
            i <= states.len(),
            forall|k: int|
                0 <= k < r.len() ==> r@[k] < i && local_change(states@[#[trigger] r@[k] as int]),
            forall|j: int| 0 <= j < i && local_change(#[trigger] states@[j]) ==> r@.contains(j as usize),
            forall|a: int, b: int| 0 <= a < b < r.len() ==> r@[a] < r@[b],
        decreases states.len() - i,
    {
        let ghost before = r@;
        if has_local_change(&states[i]) {
            r.push(i);
            assert(r@[r.len() - 1] == i);
        }
        assert forall|j: int| 0 <= j <= i && local_change(#[trigger] states@[j]) implies r@.contains(
            j as usize,
        ) by {
            if j < i {
                let k = choose|k: int| 0 <= k < before.len() && before[k] == j as usize;
                assert(r@[k] == j as usize);
            }
        }
        i = i + 1;
    }
    r
}

/// How status classifies one entry.
pub fn classify_status(s: &EntryState) -> (r: FileStatus)
    ensures
        r == status_of(*s),
{
    if !s.source_exists {
        return FileStatus::MissingSource;
    }
    if !s.stored_exists {
        return FileStatus::Modified;
    }
    match (s.source_len, s.stored_len) {
        (Some(a), Some(b)) => if a != b {
            FileStatus::Modified
        } else {
            FileStatus::UpToDate
        },
        _ => FileStatus::Modified,
    }
}

/// The message for a backup commit: the caller's, else the provider's, else
/// a fixed default.
pub fn choose_commit_message(explicit: Option<String>, generated: Option<String>) -> (r: String)
    ensures
        r@ == commit_message_of(explicit, generated),
{
    match explicit {
        Some(m) => m,
        None => match generated {
            Some(g) => g,
            None => "Update vault".to_owned(),
        },
    }
}

/// The commit that a backup makes: none where the store has no change,
/// else one with the chosen message.
pub fn backup_commit(has_changes: bool, explicit: Option<String>, generated: Option<String>) -> (r:
    Option<String>)
    ensures
        !has_changes ==> r.is_none(),
        has_changes ==> r is Some && r->Some_0@ == commit_message_of(explicit, generated),
{
    if has_changes {
        Some(choose_commit_message(explicit, generated))
    } else {
        None
    }
}

/// The steps of synchronising with the remote: none without a remote;
/// otherwise fetch, pull unless the remote branch is absent (a first push),
/// then push.
pub fn remote_steps(has_remote: bool, remote_branch_exists: bool) -> (r: RemoteSteps)
    ensures
        r.fetch == has_remote,
        r.pull == (has_remote && remote_branch_exists),
        r.push == has_remote,
{
    RemoteSteps { fetch: has_remote, pull: has_remote && remote_branch_exists, push: has_remote }
}

/// The branch to synchronise: the repository's current branch where it has
/// one, else the branch the manifest configures.
pub fn sync_branch(current: Option<String>, configured: &String) -> (r: String)
    ensures
        r == (match current {
            Some(c) => c,
            None => *configured,
        }),
{
    match current {
        Some(c) => c,
        None => configured.clone(),
    }
}

/// The branch a new vault uses: the one asked for, else the remote's own
/// (where cloning found a non-empty remote), else the configured default.
pub fn select_branch(requested: Option<String>, remote_branch: Option<String>, default: &String) -> (r:
    String)
    ensures
        r == (match requested {
            Some(b) => b,
            None => match remote_branch {
                Some(b) => b,
                None => *default,
            },
        }),
{
    match requested {
        Some(b) => b,
        None => match remote_branch {
            Some(b) => b,
            None => default.clone(),
        },
    }
}

/// A dry run of restore writes no source file, whatever the entry and its
/// restriction.
pub proof fn lemma_dry_run_writes_nothing(s: EntryState, platform: Option<Seq<char>>, os: Seq<char>)
    ensures
        !writes_source(restore_action_of(s, platform, os, true)),
{
}

/// An entry restricted to Windows is skipped by restore on Linux, dry run or
/// not, and its source is left alone.
pub proof fn lemma_other_platform_skipped(s: EntryState, dry_run: bool)
    ensures
        restore_action_of(s, Some("windows"@), "linux"@, dry_run) == RestoreAction::SkipPlatform,
        !writes_source(restore_action_of(s, Some("windows"@), "linux"@, dry_run)),
{
    reveal_strlit("windows");
    reveal_strlit("linux");
    assert("windows"@ != "linux"@) by {
        assert("windows"@[0] != "linux"@[0]);
    }
}

/// The stored copies after carrying out backup actions: where an action
/// copies, the stored copy becomes the source's content; where it skips,
/// the stored copy stays as it was. A content stands for a whole file or
/// directory tree; `None` for an absent copy.
pub open spec fn stored_after_backup(
    actions: Seq<BackupAction>,
    sources: Seq<Option<int>>,
    stored: Seq<Option<int>>,
) -> Seq<Option<int>> {
    Seq::new(
        stored.len(),
        |i: int|
            if actions[i] is SkipMissingSource {
                stored[i]
            } else {
                sources[i]
            },
    )
}

/// The backup actions for a list of entry states.
pub open spec fn backup_plan_of(states: Seq<EntryState>) -> Seq<BackupAction> {
    states.map_values(|s: EntryState| backup_action_of(s))
}

/// Backing up twice with no source changed between the two leaves the
/// stored copies as the first backup left them: the second has nothing
/// to commit.
pub proof fn lemma_backup_idempotent(
    states: Seq<EntryState>,
    sources: Seq<Option<int>>,
    stored: Seq<Option<int>>,
)
    requires
        states.len() == sources.len(),
        stored.len() == sources.len(),
        forall|i: int| 0 <= i < states.len() ==> #[trigger] states[i].source_exists == sources[i] is Some,
    ensures
        ({
            let once = stored_after_backup(backup_plan_of(states), sources, stored);
            stored_after_backup(backup_plan_of(states), sources, once) == once
        }),
{
    let once = stored_after_backup(backup_plan_of(states), sources, stored);
    assert(stored_after_backup(backup_plan_of(states), sources, once) =~= once);
}

} // verus!
