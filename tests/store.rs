use gfv::ai::{is_blank, AiClient, MAX_DIFF_CHARS, PROMPT_HEAD, PROMPT_TAIL};
use gfv::error::VaultError;
use gfv::git_ops::{
    ahead_of_remote, commit_plan, credential_plan, credentials_with, dirty, pull_outcome, local_ref, pull_next, push_refspec, remote_ref, ssh_user,
    AuthAttempts, CredentialSource, GitRepo, PullEvent, PullState,
};
use gfv::vault::Vault;

#[test]
fn fast_forward_pull_states() {
    let s = pull_next(PullState::Start, PullEvent::FetchSucceeded);
    assert_eq!(s, PullState::Fetched);
    let s = pull_next(s, PullEvent::Analysed { up_to_date: false, fast_forward: true });
    assert_eq!(s, PullState::FastForwarded);
}

#[test]
fn diverged_pull_conflicts() {
    let s = pull_next(PullState::Fetched, PullEvent::Analysed { up_to_date: false, fast_forward: false });
    assert_eq!(s, PullState::ConflictFailed);
    assert_eq!(pull_next(PullState::Fetched, PullEvent::Analysed { up_to_date: true, fast_forward: false }), PullState::UpToDate);
    assert_eq!(pull_next(PullState::Start, PullEvent::FetchFailed), PullState::NetworkFailed);
    assert_eq!(pull_next(PullState::UpToDate, PullEvent::FetchFailed), PullState::UpToDate);
}

#[test]
fn credential_sources_in_order() {
    let fresh = AuthAttempts::new();
    assert_eq!(
        credential_plan(&fresh, true, true),
        vec![CredentialSource::StoredCredential, CredentialSource::SshAgent, CredentialSource::DefaultKeyFile]
    );
    assert_eq!(credential_plan(&fresh, true, false), vec![CredentialSource::StoredCredential]);
    let mut tried = AuthAttempts::new();
    tried.mark(CredentialSource::SshAgent);
    assert_eq!(credential_plan(&tried, false, true), vec![CredentialSource::DefaultKeyFile]);
    assert_eq!(ssh_user(None), "git");
    assert_eq!(ssh_user(Some("me")), "me");
}

#[test]
fn unpushed_commit_decision() {
    assert!(ahead_of_remote(false, false, None));
    assert!(!ahead_of_remote(true, true, Some(true)));
    assert!(ahead_of_remote(true, false, Some(true)));
    assert!(!ahead_of_remote(true, false, Some(false)));
    assert!(ahead_of_remote(true, false, None));
}

#[test]
fn reference_names() {
    assert_eq!(local_ref("main"), "refs/heads/main");
    assert_eq!(remote_ref("origin", "main"), "refs/remotes/origin/main");
    assert_eq!(push_refspec("dev"), "refs/heads/dev:refs/heads/dev");
}

#[test]
fn opening_a_missing_repository_fails() {
    let r = GitRepo::open("/nonexistent/gfv/repository/path");
    assert!(matches!(r, Err(VaultError::GitError(_))));
}

#[test]
fn vault_paths() {
    assert_eq!(Vault::repo_dir("/v"), "/v/repo");
    assert_eq!(Vault::git_dir("/v"), "/v/repo/.git");
    assert_eq!(Vault::manifest_path("/v"), "/v/.vault-index.json");
    let v = Vault::from_manifest("/v".to_string(), gfv::manifest::Manifest::new("/v".to_string(), None));
    assert_eq!(v.get_file_path("zsh/zshrc"), "/v/repo/zsh/zshrc");
}

#[test]
fn prompt_refuses_blank_diff() {
    let c = AiClient::new("http://x".to_string(), "k".to_string(), "m".to_string());
    assert_eq!(c.commit_prompt("  \n\t"), Err(VaultError::EmptyDiff));
    assert_eq!(c.commit_prompt(""), Err(VaultError::EmptyDiff));
}

#[test]
fn prompt_carries_diff() {
    let c = AiClient::new("http://x".to_string(), "k".to_string(), "m".to_string());
    let p = c.commit_prompt("+line").unwrap();
    assert_eq!(p, format!("{}+line{}", PROMPT_HEAD, PROMPT_TAIL));
    assert_eq!(c.endpoint(), "http://x");
    assert_eq!(c.api_key(), "k");
    assert_eq!(c.model(), "m");
}

#[test]
fn prompt_truncates_long_diff() {
    let c = AiClient::new("e".to_string(), "k".to_string(), "m".to_string());
    let diff = "é".repeat(5000);
    let p = c.commit_prompt(&diff).unwrap();
    assert_eq!(p.chars().count(), PROMPT_HEAD.chars().count() + MAX_DIFF_CHARS + PROMPT_TAIL.chars().count());
}

#[test]
fn error_messages() {
    assert_eq!(VaultError::FileNotFound("x".to_string()).message(), "File not found: x");
    assert_eq!(VaultError::GitConflict.message(), "Git conflict detected");
}

#[test]
fn pull_outcome_per_analysis() {
    assert_eq!(pull_outcome(true, false), Ok(PullState::UpToDate));
    assert_eq!(pull_outcome(true, true), Ok(PullState::UpToDate));
    assert_eq!(pull_outcome(false, true), Ok(PullState::FastForwarded));
    assert_eq!(pull_outcome(false, false), Err(VaultError::GitConflict));
}

#[test]
fn commit_plan_fixes_identity_and_parent() {
    let first = commit_plan(true, "Initialize vault");
    assert_eq!(first.update_ref, "HEAD");
    assert_eq!(first.name, "gfv");
    assert_eq!(first.email, "gfv@local");
    assert_eq!(first.message, "Initialize vault");
    assert!(!first.with_parent);
    assert!(commit_plan(false, "x").with_parent);
}

#[test]
fn status_count_to_dirty() {
    assert!(!dirty(0));
    assert!(dirty(3));
}

#[test]
fn no_credential_source_left_tries_nothing() {
    let mut attempts = AuthAttempts::new();
    assert!(credentials_with(&mut attempts, "https://example.invalid/r.git", None, false, false).is_err());
    assert_eq!(attempts, AuthAttempts::new());
    let mut all = AuthAttempts::new();
    all.mark(CredentialSource::StoredCredential);
    all.mark(CredentialSource::SshAgent);
    all.mark(CredentialSource::DefaultKeyFile);
    let mut again = all;
    assert!(credentials_with(&mut again, "https://example.invalid/r.git", None, true, true).is_err());
    assert_eq!(again, all);
}

#[test]
fn blank_text_is_white_space_only() {
    assert!(is_blank(""));
    assert!(is_blank(" \t\n\u{a0}\u{3000}"));
    assert!(!is_blank("  x "));
    assert!(!is_blank("\u{200b}"));
}
