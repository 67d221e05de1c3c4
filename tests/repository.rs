use gfv::error::VaultError;
use gfv::git_ops::{GitRepo, PullState};
use gfv::manifest::Timestamp;

fn scratch(tag: &str) -> String {
    let t = Timestamp::now();
    format!("/tmp/gfv-repository-test-{}-{}-{}", tag, t.secs, t.nanos)
}

#[test]
fn fresh_repository_commits_and_renames_branch() {
    let dir = scratch("fresh");
    let repo = GitRepo::init(&dir).unwrap();
    assert!(repo.is_empty().unwrap());
    assert!(!repo.has_changes().unwrap());
    repo.add_all().unwrap();
    repo.commit("Initialize vault").unwrap();
    assert!(!repo.is_empty().unwrap());
    repo.set_branch("trunk").unwrap();
    assert_eq!(repo.current_branch().unwrap(), "trunk");
    repo.commit("second").unwrap();
    assert_eq!(repo.current_branch().unwrap(), "trunk");
    assert_eq!(repo.get_remote_url("origin").unwrap(), None);
    repo.add_remote("origin", "/nowhere").unwrap();
    assert_eq!(repo.get_remote_url("origin").unwrap(), Some("/nowhere".to_string()));
    repo.set_remote("origin", "/elsewhere").unwrap();
    assert_eq!(repo.get_remote_url("origin").unwrap(), Some("/elsewhere".to_string()));
    assert!(!repo.remote_branch_exists("origin", "trunk"));
    assert!(repo.has_unpushed_commits("origin", "trunk").unwrap());
}

#[test]
fn fast_forward_then_diverged_pull() {
    let upstream_dir = scratch("upstream");
    let upstream = GitRepo::init(&upstream_dir).unwrap();
    upstream.commit("one").unwrap();
    upstream.set_branch("main").unwrap();

    let local_dir = scratch("local");
    let local = GitRepo::clone(&upstream_dir, &local_dir).unwrap();
    assert_eq!(local.current_branch().unwrap(), "main");
    assert!(local.remote_branch_exists("origin", "main"));
    assert_eq!(local.pull("origin", "main").unwrap(), PullState::UpToDate);

    upstream.commit("two").unwrap();
    assert_eq!(local.pull("origin", "main").unwrap(), PullState::FastForwarded);
    assert_eq!(local.pull("origin", "main").unwrap(), PullState::UpToDate);
    assert!(!local.has_unpushed_commits("origin", "main").unwrap());

    upstream.commit("three").unwrap();
    local.commit("local work").unwrap();
    assert!(local.has_unpushed_commits("origin", "main").unwrap());
    assert_eq!(local.pull("origin", "main"), Err(VaultError::GitConflict));
}

#[test]
fn cloning_a_missing_remote_fails() {
    let r = GitRepo::clone("/nonexistent/gfv/remote", &scratch("missing"));
    assert!(r.is_err());
}

#[test]
fn init_refuses_existing_repository() {
    let dir = scratch("twice");
    GitRepo::init(&dir).unwrap();
    assert_eq!(GitRepo::init(&dir).err(), Some(VaultError::AlreadyExists(dir.clone())));
}

#[test]
fn set_branch_renames() {
    let dir = scratch("rename");
    let repo = GitRepo::init(&dir).unwrap();
    repo.commit("one").unwrap();
    let before = repo.current_branch().unwrap();
    let target = if before == "renamed" { "other" } else { "renamed" };
    repo.set_branch(target).unwrap();
    assert_eq!(repo.current_branch().unwrap(), target);
    assert!(repo.has_unpushed_commits("origin", &before).is_err());
    repo.set_branch(target).unwrap();
    assert_eq!(repo.current_branch().unwrap(), target);
}
