//! The versioned store: a git repository driven through `git2`, with this
//! tool's policy on top — a fixed commit identity, fast-forward-only pulls,
//! branch renaming, and an ordered fallback of credential sources.
use vstd::prelude::*;

use git2::{
    AnnotatedCommit, Branch, Commit, Config as GitConfig, Cred, CredentialType, Error, FetchOptions, Index, Oid, PushOptions,
    Remote, RemoteCallbacks, Repository, Signature, Tree,
};

use crate::error::VaultError;
use crate::paths::home_dir;
use crate::text::{join2, join3, same_text};

verus! {

#[verifier::external_type_specification]
#[verifier::external_body]
pub struct ExRepository(Repository);

#[verifier::external_type_specification]
#[verifier::external_body]
pub struct ExError(Error);

#[verifier::external_type_specification]
#[verifier::external_body]
pub struct ExOid(Oid);

#[verifier::external_type_specification]
#[verifier::external_body]
pub struct ExRemote<'r>(Remote<'r>);

#[verifier::external_type_specification]
#[verifier::external_body]
pub struct ExIndex(Index);

#[verifier::external_type_specification]
#[verifier::external_body]
pub struct ExTree<'r>(Tree<'r>);

#[verifier::external_type_specification]
#[verifier::external_body]
pub struct ExSignature<'s>(Signature<'s>);

#[verifier::external_type_specification]
#[verifier::external_body]
pub struct ExCommit<'r>(Commit<'r>);

#[verifier::external_type_specification]
#[verifier::external_body]
pub struct ExAnnotatedCommit<'r>(AnnotatedCommit<'r>);

#[verifier::external_type_specification]
#[verifier::external_body]
pub struct ExCred(Cred);

#[verifier::external_type_specification]
#[verifier::external_body]
pub struct ExBranch<'r>(Branch<'r>);

#[verifier::external_type_specification]
#[verifier::external_body]
pub struct ExGitConfig(GitConfig);

#[verifier::external_type_specification]
#[verifier::external_body]
pub struct ExCredentialType(CredentialType);

#[verifier::external_type_specification]
#[verifier::external_body]
pub struct ExRemoteCallbacks<'a>(RemoteCallbacks<'a>);

#[verifier::external_type_specification]
#[verifier::external_body]
pub struct ExFetchOptions<'cb>(FetchOptions<'cb>);

#[verifier::external_type_specification]
#[verifier::external_body]
pub struct ExPushOptions<'cb>(PushOptions<'cb>);

// ---------------------------------------------------------------------------
// Calls into git2.

/// Relies on `git2::Repository::init`: creates a repository at `path`.
#[verifier::external_body]
fn repo_init(path: &str) -> (r: Result<Repository, Error>) {
    Repository::init(path)
}

/// Relies on `git2::Repository::open`: opens the repository at `path`.
#[verifier::external_body]
fn repo_open(path: &str) -> (r: Result<Repository, Error>) {
    Repository::open(path)
}

/// Relies on `git2::build::RepoBuilder::clone`, fetching with `options`.
#[verifier::external_body]
fn repo_clone(url: &str, path: &str, options: FetchOptions<'static>) -> (r: Result<Repository, Error>) {
    let mut builder = git2::build::RepoBuilder::new();
    builder.fetch_options(options);
    builder.clone(url, std::path::Path::new(path))
}

/// Relies on `git2::Repository::is_empty`.
#[verifier::external_body]
fn repo_is_empty(repo: &Repository) -> (r: Result<bool, Error>) {
    repo.is_empty()
}

/// Relies on `git2::Repository::remote`: adds a remote called `name`.
#[verifier::external_body]
fn repo_add_remote(repo: &Repository, name: &str, url: &str) -> (r: Result<(), Error>) {
    repo.remote(name, url).map(|_| ())
}

/// Relies on `git2::Repository::find_remote`.
#[verifier::external_body]
fn repo_find_remote<'r>(repo: &'r Repository, name: &str) -> (r: Result<Remote<'r>, Error>) {
    repo.find_remote(name)
}

/// Relies on `git2::Repository::config`: the repository's configuration.
#[verifier::external_body]
fn repo_config(repo: &Repository) -> (r: Result<GitConfig, Error>) {
    repo.config()
}

/// Relies on `git2::Config::get_string`: an error where `name` is not set
/// or its value is not text.
#[verifier::external_body]
fn config_string(config: &GitConfig, name: &str) -> (r: Result<String, Error>) {
    config.get_string(name)
}

/// Relies on `git2::Repository::head_detached`.
#[verifier::external_body]
fn repo_head_detached(repo: &Repository) -> (r: Result<bool, Error>) {
    repo.head_detached()
}

/// Relies on `git2::Repository::find_branch`, among local branches.
#[verifier::external_body]
fn repo_find_local_branch<'r>(repo: &'r Repository, name: &str) -> (r: Result<Branch<'r>, Error>) {
    repo.find_branch(name, git2::BranchType::Local)
}

/// Relies on `git2::Branch::rename`, which moves the branch reference (and
/// HEAD where it points at it) to the new name, overwriting where `force`.
#[verifier::external_body]
fn branch_rename(branch: &mut Branch, new_name: &str, force: bool) -> (r: Result<(), Error>) {
    branch.rename(new_name, force).map(|_| ())
}

/// Relies on `git2::Repository::remote_set_url`.
#[verifier::external_body]
fn repo_set_remote_url(repo: &Repository, name: &str, url: &str) -> (r: Result<(), Error>) {
    repo.remote_set_url(name, url)
}

/// Relies on `git2::Repository::statuses`, asked for untracked files (in
/// untracked directories too) and not for ignored ones: the number of paths
/// that differ from the last commit, staged, unstaged or untracked.
#[verifier::external_body]
fn repo_status_count(repo: &Repository) -> (r: Result<usize, Error>) {
    let mut options = git2::StatusOptions::new();
    options.include_untracked(true).recurse_untracked_dirs(true).include_ignored(false);
    repo.statuses(Some(&mut options)).map(|s| s.len())
}

/// Relies on `git2::Repository::find_reference`: whether `name` resolves.
#[verifier::external_body]
fn repo_has_reference(repo: &Repository, name: &str) -> (r: bool) {
    repo.find_reference(name).is_ok()
}

/// Relies on `git2::Repository::find_reference`, read for the commit it
/// points at directly (`None` for a symbolic reference).
#[verifier::external_body]
fn repo_reference_target(repo: &Repository, name: &str) -> (r: Result<Option<Oid>, Error>) {
    repo.find_reference(name).map(|r| r.target())
}

/// Relies on `git2::Repository::head`, read for the commit it points at.
#[verifier::external_body]
fn repo_head_target(repo: &Repository) -> (r: Result<Option<Oid>, Error>) {
    repo.head().map(|h| h.target())
}

/// Relies on `git2::Repository::head`, read for its short name (`None`
/// where that is not text).
#[verifier::external_body]
fn repo_head_shorthand(repo: &Repository) -> (r: Result<Option<String>, Error>) {
    repo.head().map(|h| h.shorthand().map(|s| s.to_string()))
}

/// Relies on `git2::Repository::reference`: points `name` at `id`,
/// overwriting it where `force`.
#[verifier::external_body]
fn repo_set_reference(repo: &Repository, name: &str, id: Oid, force: bool, log: &str) -> (r: Result<(), Error>) {
    repo.reference(name, id, force, log).map(|_| ())
}

/// Relies on `git2::Repository::set_head`.
#[verifier::external_body]
fn repo_set_head(repo: &Repository, name: &str) -> (r: Result<(), Error>) {
    repo.set_head(name)
}

/// Relies on `git2::Repository::graph_descendant_of`.
#[verifier::external_body]
fn repo_descendant_of(repo: &Repository, commit: Oid, ancestor: Oid) -> (r: Result<bool, Error>) {
    repo.graph_descendant_of(commit, ancestor)
}

/// Relies on `PartialEq` of `git2::Oid`, which compares the object ids.
#[verifier::external_body]
fn same_oid(a: Oid, b: Oid) -> (r: bool)
    ensures
        r == (a == b),
{
    a == b
}

/// Relies on `git2::Repository::index`.
#[verifier::external_body]
fn repo_index(repo: &Repository) -> (r: Result<Index, Error>) {
    repo.index()
}

/// Relies on `git2::Index::add_all` with default options, for the paths
/// that `pathspec` matches.
#[verifier::external_body]
fn index_add_all(index: &mut Index, pathspec: &str) -> (r: Result<(), Error>) {
    index.add_all([pathspec].iter(), git2::IndexAddOption::DEFAULT, None)
}

/// Relies on `git2::Index::write`.
#[verifier::external_body]
fn index_write(index: &mut Index) -> (r: Result<(), Error>) {
    index.write()
}

/// Relies on `git2::Index::write_tree`.
#[verifier::external_body]
fn index_write_tree(index: &mut Index) -> (r: Result<Oid, Error>) {
    index.write_tree()
}

/// Relies on `git2::Repository::find_tree`.
#[verifier::external_body]
fn repo_find_tree<'r>(repo: &'r Repository, id: Oid) -> (r: Result<Tree<'r>, Error>) {
    repo.find_tree(id)
}

/// Relies on `git2::Signature::now`.
#[verifier::external_body]
fn signature_now(name: &str, email: &str) -> (r: Result<Signature<'static>, Error>) {
    Signature::now(name, email)
}

/// Relies on `git2::Repository::find_commit`.
#[verifier::external_body]
fn repo_find_commit<'r>(repo: &'r Repository, id: Oid) -> (r: Result<Commit<'r>, Error>) {
    repo.find_commit(id)
}

/// Relies on `git2::Repository::commit`: records `tree` with `message`,
/// author and committer `sig`, the given parent (none for a first commit),
/// and moves `update_ref` to the new commit.
#[verifier::external_body]
fn repo_commit(
    repo: &Repository,
    update_ref: &str,
    sig: &Signature,
    message: &str,
    tree: &Tree,
    parent: Option<&Commit>,
) -> (r: Result<Oid, Error>) {
    let parents: Vec<&Commit> = parent.into_iter().collect();
    repo.commit(Some(update_ref), sig, sig, message, tree, &parents)
}

/// Relies on `git2::Repository::find_annotated_commit`.
#[verifier::external_body]
fn repo_annotated_commit<'r>(repo: &'r Repository, id: Oid) -> (r: Result<AnnotatedCommit<'r>, Error>) {
    repo.find_annotated_commit(id)
}

/// Relies on `git2::Repository::merge_analysis` of HEAD against `theirs`,
/// read as (up to date, fast-forward possible).
#[verifier::external_body]
fn repo_merge_analysis(repo: &Repository, theirs: &AnnotatedCommit) -> (r: Result<(bool, bool), Error>) {
    repo.merge_analysis(&[theirs]).map(|(a, _)| (a.is_up_to_date(), a.is_fast_forward()))
}

/// Relies on `git2::Repository::checkout_head` with a forced checkout, which
/// overwrites the working tree.
#[verifier::external_body]
fn repo_checkout_head_forced(repo: &Repository) -> (r: Result<(), Error>) {
    repo.checkout_head(Some(git2::build::CheckoutBuilder::new().force()))
}

/// Relies on `git2::Remote::fetch` of one refspec.
#[verifier::external_body]
fn remote_fetch(remote: &mut Remote, refspec: &str, options: &mut FetchOptions) -> (r: Result<(), Error>) {
    remote.fetch(&[refspec], Some(options), None)
}

/// Relies on `git2::Remote::push` of one refspec.
#[verifier::external_body]
fn remote_push(remote: &mut Remote, refspec: &str, options: &mut PushOptions) -> (r: Result<(), Error>) {
    remote.push(&[refspec], Some(options))
}

/// Relies on `git2::RemoteCallbacks::credentials`: the callbacks answer
/// each request for credentials through `credentials_for`, with the
/// attempts made so far carried from one request to the next.
#[verifier::external_body]
fn auth_callbacks(attempts: AuthAttempts) -> (r: RemoteCallbacks<'static>) {
    let mut attempts = attempts;
    let mut callbacks = RemoteCallbacks::new();
    callbacks.credentials(move |url, user, allowed| credentials_for(&mut attempts, url, user, allowed));
    callbacks
}

/// Relies on `git2::FetchOptions::remote_callbacks`.
#[verifier::external_body]
fn fetch_options(callbacks: RemoteCallbacks<'static>) -> (r: FetchOptions<'static>) {
    let mut options = FetchOptions::new();
    options.remote_callbacks(callbacks);
    options
}

/// Relies on `git2::PushOptions::remote_callbacks`.
#[verifier::external_body]
fn push_options(callbacks: RemoteCallbacks<'static>) -> (r: PushOptions<'static>) {
    let mut options = PushOptions::new();
    options.remote_callbacks(callbacks);
    options
}

/// Relies on `git2::CredentialType::contains`: whether a username and
/// plain-text password may be offered.
#[verifier::external_body]
fn allows_user_pass(allowed: &CredentialType) -> (r: bool) {
    allowed.contains(CredentialType::USER_PASS_PLAINTEXT)
}

/// Relies on `git2::CredentialType::contains`: whether an SSH key may be
/// offered.
#[verifier::external_body]
fn allows_ssh_key(allowed: &CredentialType) -> (r: bool) {
    allowed.contains(CredentialType::SSH_KEY)
}

/// Relies on `git2::Config::open_default`: the user's git configuration.
#[verifier::external_body]
fn default_git_config() -> (r: Result<GitConfig, Error>) {
    GitConfig::open_default()
}

/// Relies on `git2::Cred::credential_helper`.
#[verifier::external_body]
fn cred_from_helper(config: &GitConfig, url: &str, username: Option<&str>) -> (r: Result<Cred, Error>) {
    Cred::credential_helper(config, url, username)
}

/// Relies on `git2::Cred::ssh_key_from_agent`.
#[verifier::external_body]
fn cred_from_agent(username: &str) -> (r: Result<Cred, Error>) {
    Cred::ssh_key_from_agent(username)
}

/// Relies on `git2::Cred::ssh_key`, with a private key file and no public
/// key or passphrase.
#[verifier::external_body]
fn cred_from_key_file(username: &str, private_key: &str) -> (r: Result<Cred, Error>) {
    Cred::ssh_key(username, None, std::path::Path::new(private_key), None)
}

/// Relies on `git2::Error::from_str`.
#[verifier::external_body]
fn error_from_text(message: &str) -> (r: Error) {
    Error::from_str(message)
}

/// Relies on `git2::Error::new`: an error with code `ErrorCode::Auth`,
/// which a credentials callback hands back to libgit2 as its result.
#[verifier::external_body]
fn auth_error(message: &str) -> (r: Error) {
    Error::new(git2::ErrorCode::Auth, git2::ErrorClass::Callback, message)
}

/// Relies on `git2::Error::message`, copied out.
#[verifier::external_body]
fn error_message(e: &Error) -> (r: String) {
    e.message().to_string()
}

/// Relies on `git2::Error::code`: whether it is `ErrorCode::Auth`.
#[verifier::external_body]
fn is_auth_error(e: &Error) -> (r: bool) {
    e.code() == git2::ErrorCode::Auth
}

// ---------------------------------------------------------------------------
// Credentials.

/// A source of credentials, in the order they are tried.
#[derive(Debug, Clone, Copy, PartialEq, Eq)]
pub enum CredentialSource {
    /// The operating system's stored credentials, through git's credential
    /// helper.
    StoredCredential,
    /// A running SSH agent.
    SshAgent,
    /// The default private key file, `~/.ssh/id_rsa`.
    DefaultKeyFile,
}

/// Which credential sources have been tried during one network operation.
/// A source is tried at most once: where the backend asks again, the
/// credentials it gave were refused.
#[derive(Debug, Clone, Copy, PartialEq, Eq)]
pub struct AuthAttempts {
    pub stored_tried: bool,
    pub agent_tried: bool,
    pub key_file_tried: bool,
}

/// The sources still worth trying, in order: stored credentials where a
/// username and password are accepted, then the agent and the key file
/// where an SSH key is.
pub open spec fn credential_plan_of(a: AuthAttempts, user_pass: bool, ssh_key: bool) -> Seq<CredentialSource> {
    (if user_pass && !a.stored_tried { seq![CredentialSource::StoredCredential] } else { seq![] })
        + (if ssh_key && !a.agent_tried { seq![CredentialSource::SshAgent] } else { seq![] })
        + (if ssh_key && !a.key_file_tried { seq![CredentialSource::DefaultKeyFile] } else { seq![] })
}

/// The attempts after trying `s`.
pub open spec fn after_trying(a: AuthAttempts, s: CredentialSource) -> AuthAttempts {
    match s {
        CredentialSource::StoredCredential => AuthAttempts { stored_tried: true, ..a },
        CredentialSource::SshAgent => AuthAttempts { agent_tried: true, ..a },
        CredentialSource::DefaultKeyFile => AuthAttempts { key_file_tried: true, ..a },
    }
}

impl AuthAttempts {
    /// Nothing tried yet.
    pub fn new() -> (r: AuthAttempts)
        ensures
            !r.stored_tried && !r.agent_tried && !r.key_file_tried,
    {
        AuthAttempts { stored_tried: false, agent_tried: false, key_file_tried: false }
    }

    /// Records that `s` was tried.
    pub fn mark(&mut self, s: CredentialSource)
        ensures
            *final(self) == after_trying(*old(self), s),
    {
        match s {
            CredentialSource::StoredCredential => self.stored_tried = true,
            CredentialSource::SshAgent => self.agent_tried = true,
            CredentialSource::DefaultKeyFile => self.key_file_tried = true,
        }
    }
}

/// The credential sources to try, in order, given what was tried already
/// and which kinds of credential the remote accepts.
pub fn credential_plan(a: &AuthAttempts, user_pass: bool, ssh_key: bool) -> (r: Vec<CredentialSource>)
    ensures
        r@ == credential_plan_of(*a, user_pass, ssh_key),
{
    let mut r: Vec<CredentialSource> = Vec::new();
    if user_pass && !a.stored_tried {
        r.push(CredentialSource::StoredCredential);
    }
    if ssh_key && !a.agent_tried {
        r.push(CredentialSource::SshAgent);
    }
    if ssh_key && !a.key_file_tried {
        r.push(CredentialSource::DefaultKeyFile);
    }
    assert(r@ =~= credential_plan_of(*a, user_pass, ssh_key));
    r
}

/// The user name offered with an SSH key: the one in the URL, else `git`.
pub fn ssh_user<'a>(from_url: Option<&'a str>) -> (r: &'a str)
    ensures
        from_url matches Some(u) ==> r@ == u@,
        from_url is None ==> r@ == "git"@,
{
    match from_url {
        Some(u) => u,
        None => "git",
    }
}

/// Tries one credential source.
fn try_source(s: CredentialSource, url: &str, username: Option<&str>) -> (r: Result<Cred, Error>) {
    match s {
        CredentialSource::StoredCredential => match default_git_config() {
            Ok(config) => cred_from_helper(&config, url, username),
            Err(e) => Err(e),
        },
        CredentialSource::SshAgent => cred_from_agent(ssh_user(username)),
        CredentialSource::DefaultKeyFile => match home_dir() {
            Some(home) => {
                let key = join2(home.as_str(), "/.ssh/id_rsa");
                cred_from_key_file(ssh_user(username), key.as_str())
            },
            None => Err(error_from_text("no home directory for the default key file")),
        },
    }
}

/// The attempts after trying the first `k` sources of `plan`, in order.
pub open spec fn marked_through(a: AuthAttempts, plan: Seq<CredentialSource>, k: int) -> AuthAttempts
    decreases k,
{
    if k <= 0 {
        a
    } else {
        after_trying(marked_through(a, plan, k - 1), plan[k - 1])
    }
}

proof fn lemma_marked_keeps_tried(a: AuthAttempts, plan: Seq<CredentialSource>, k: int)
    requires
        0 <= k <= plan.len(),
    ensures
        a.stored_tried ==> marked_through(a, plan, k).stored_tried,
        a.agent_tried ==> marked_through(a, plan, k).agent_tried,
        a.key_file_tried ==> marked_through(a, plan, k).key_file_tried,
    decreases k,
{
    if k > 0 {
        lemma_marked_keeps_tried(a, plan, k - 1);
    }
}

/// Answers the backend's request for credentials: tries the remaining
/// sources one by one, in the order of the plan, and stops at the first
/// that yields credentials. Each source it tries is recorded, so that none
/// is tried twice. Where no source remains, it tries nothing and fails;
/// where all fail, every source of the plan is recorded as tried.
pub fn credentials_with(
    attempts: &mut AuthAttempts,
    url: &str,
    username: Option<&str>,
    user_pass: bool,
    ssh_key: bool,
) -> (r: Result<Cred, Error>)
    ensures
        ({
            let plan = credential_plan_of(*old(attempts), user_pass, ssh_key);
            &&& plan.len() == 0 ==> r is Err && *final(attempts) == *old(attempts)
            &&& r is Ok ==> exists|k: int|
                1 <= k <= plan.len() && *final(attempts) == #[trigger] marked_through(
                    *old(attempts),
                    plan,
                    k,
                )
            &&& r is Err ==> *final(attempts) == marked_through(*old(attempts), plan, plan.len() as int)
        }),
        old(attempts).stored_tried ==> final(attempts).stored_tried,
        old(attempts).agent_tried ==> final(attempts).agent_tried,
        old(attempts).key_file_tried ==> final(attempts).key_file_tried,
{
    let plan = credential_plan(attempts, user_pass, ssh_key);
    let ghost start = *attempts;
    let mut i: usize = 0;
    while i < plan.len()
        invariant
            0 <= i <= plan.len(),
            start == *old(attempts),
            plan@ == credential_plan_of(start, user_pass, ssh_key),
            *attempts == marked_through(start, plan@, i as int),
        decreases plan.len() - i,
    {
        let s = plan[i];
        attempts.mark(s);
        let attempt = try_source(s, url, username);
        if attempt.is_ok() {
            assert(*attempts == marked_through(start, plan@, i + 1));
            proof {
                lemma_marked_keeps_tried(start, plan@, i + 1);
            }
            return attempt;
        }
        i = i + 1;
    }
    proof {
        lemma_marked_keeps_tried(start, plan@, i as int);
    }
    Err(auth_error("No authentication method available"))
}

/// `credentials_with`, for the kinds of credential that `allowed` names.
pub fn credentials_for(
    attempts: &mut AuthAttempts,
    url: &str,
    username: Option<&str>,
    allowed: CredentialType,
) -> (r: Result<Cred, Error>)
    ensures
        old(attempts).stored_tried ==> final(attempts).stored_tried,
        old(attempts).agent_tried ==> final(attempts).agent_tried,
        old(attempts).key_file_tried ==> final(attempts).key_file_tried,
{
    let user_pass = allows_user_pass(&allowed);
    let ssh_key = allows_ssh_key(&allowed);
    credentials_with(attempts, url, username, user_pass, ssh_key)
}

// ---------------------------------------------------------------------------
// Pulling.

/// The states of a pull.
#[derive(Debug, Clone, Copy, PartialEq, Eq)]
pub enum PullState {
    Start,
    Fetched,
    /// The local branch already contains the fetched commit.
    UpToDate,
    /// The local branch was moved forward to the fetched commit.
    FastForwarded,
    /// Local and remote histories diverged: resolved by hand.
    ConflictFailed,
    /// Fetching failed.
    NetworkFailed,
}

/// What the pull learns at each step.
#[derive(Debug, Clone, Copy, PartialEq, Eq)]
pub enum PullEvent {
    FetchSucceeded,
    FetchFailed,
    /// The merge analysis of the fetched commit against HEAD.
    Analysed { up_to_date: bool, fast_forward: bool },
}

pub open spec fn pull_next_of(s: PullState, e: PullEvent) -> PullState {
    match (s, e) {
        (PullState::Start, PullEvent::FetchSucceeded) => PullState::Fetched,
        (PullState::Start, PullEvent::FetchFailed) => PullState::NetworkFailed,
        (PullState::Fetched, PullEvent::Analysed { up_to_date, fast_forward }) => if up_to_date {
            PullState::UpToDate
        } else if fast_forward {
            PullState::FastForwarded
        } else {
            PullState::ConflictFailed
        },
        _ => s,
    }
}

/// The next state of a pull; an event that does not fit the state leaves it
/// unchanged.
pub fn pull_next(s: PullState, e: PullEvent) -> (r: PullState)
    ensures
        r == pull_next_of(s, e),
{
    match (s, e) {
        (PullState::Start, PullEvent::FetchSucceeded) => PullState::Fetched,
        (PullState::Start, PullEvent::FetchFailed) => PullState::NetworkFailed,
        (PullState::Fetched, PullEvent::Analysed { up_to_date, fast_forward }) => if up_to_date {
            PullState::UpToDate
        } else if fast_forward {
            PullState::FastForwarded
        } else {
            PullState::ConflictFailed
        },
        _ => s,
    }
}

/// What a pull reports once the fetched commit has been analysed against
/// HEAD: the state the analysis leads to, and `GitConflict` for diverged
/// histories.
pub open spec fn pull_result_of(up_to_date: bool, fast_forward: bool) -> Result<PullState, VaultError> {
    let s = pull_next_of(PullState::Fetched, PullEvent::Analysed { up_to_date, fast_forward });
    if s is ConflictFailed {
        Err(VaultError::GitConflict)
    } else {
        Ok(s)
    }
}

/// What a pull reports for a merge analysis.
pub fn pull_outcome(up_to_date: bool, fast_forward: bool) -> (r: Result<PullState, VaultError>)
    ensures
        r == pull_result_of(up_to_date, fast_forward),
        up_to_date ==> r == Ok::<PullState, VaultError>(PullState::UpToDate),
        !up_to_date && fast_forward ==> r == Ok::<PullState, VaultError>(PullState::FastForwarded),
        !up_to_date && !fast_forward ==> r == Err::<PullState, VaultError>(VaultError::GitConflict),
{
    let s = pull_next(PullState::Fetched, PullEvent::Analysed { up_to_date, fast_forward });
    match s {
        PullState::ConflictFailed => Err(VaultError::GitConflict),
        _ => Ok(s),
    }
}

/// The merge analysis of a fetched commit against the local head, as git
/// reports it: up to date where the head already contains the commit;
/// fast-forward where the head is a strict ancestor of it.
pub open spec fn analysis_of(local_contains_fetched: bool, local_behind_fetched: bool) -> (bool, bool) {
    (local_contains_fetched, !local_contains_fetched && local_behind_fetched)
}

/// A fast-forward pull: the remote branch moved to a descendant of the
/// local head, which does not contain it. The pull reports a fast-forward,
/// after which `GitRepo::pull` moves the branch to the fetched commit.
pub proof fn lemma_fast_forward_pull(a_contains_b: bool, b_descends_from_a: bool)
    requires
        b_descends_from_a,
        !a_contains_b,
    ensures
        ({
            let (u, f) = analysis_of(a_contains_b, b_descends_from_a);
            pull_result_of(u, f) == Ok::<PullState, VaultError>(PullState::FastForwarded)
        }),
{
}

/// A pull of diverged histories (neither head contains the other) fails
/// with a conflict, which `GitRepo::pull` reports before touching any
/// reference or the working tree.
pub proof fn lemma_diverged_pull(a_contains_b: bool, b_descends_from_a: bool)
    requires
        !a_contains_b,
        !b_descends_from_a,
    ensures
        ({
            let (u, f) = analysis_of(a_contains_b, b_descends_from_a);
            pull_result_of(u, f) == Err::<PullState, VaultError>(VaultError::GitConflict)
        }),
{
}

/// Whether a status count means the working tree differs from the last
/// commit.
pub fn dirty(count: usize) -> (r: bool)
    ensures
        r == (count != 0),
{
    count != 0
}

/// What a commit is made of, besides the staged tree.
pub struct CommitPlan {
    /// The reference moved to the new commit.
    pub update_ref: String,
    pub name: String,
    pub email: String,
    pub message: String,
    /// Whether the HEAD commit is the parent; a first commit has none.
    pub with_parent: bool,
}

/// The commit to make in a repository that is (or is not) `empty`.
pub fn commit_plan(empty: bool, message: &str) -> (r: CommitPlan)
    ensures
        r.update_ref@ == "HEAD"@,
        r.name@ == COMMIT_NAME@,
        r.email@ == COMMIT_EMAIL@,
        r.message@ == message@,
        r.with_parent == !empty,
{
    CommitPlan {
        update_ref: "HEAD".to_owned(),
        name: COMMIT_NAME.to_owned(),
        email: COMMIT_EMAIL.to_owned(),
        message: message.to_owned(),
        with_parent: !empty,
    }
}

/// The error a git failure is reported as.
pub open spec fn git_error(e: VaultError) -> bool {
    e is AuthenticationFailed || e is GitError
}

/// Whether the local branch holds commits the remote branch lacks: where
/// the remote branch is unknown; where the two differ and the local one
/// descends from the remote one, or that cannot be told.
pub fn ahead_of_remote(remote_known: bool, same_commit: bool, descends: Option<bool>) -> (r: bool)
    ensures
        r == (!remote_known || (!same_commit && match descends {
            Some(d) => d,
            None => true,
        })),
{
    if !remote_known {
        return true;
    }
    if same_commit {
        return false;
    }
    match descends {
        Some(d) => d,
        None => true,
    }
}

// ---------------------------------------------------------------------------
// The repository.

/// The error reported for a failed git call: an authentication failure as
/// such, anything else with the backend's message.
pub fn git_failure(e: &Error) -> (r: VaultError)
    ensures
        r is AuthenticationFailed || r is GitError,
{
    if is_auth_error(e) {
        VaultError::AuthenticationFailed
    } else {
        VaultError::GitError(error_message(e))
    }
}

/// The identity that commits are made under.
pub const COMMIT_NAME: &'static str = "gfv";

/// The e-mail address that commits are made under.
pub const COMMIT_EMAIL: &'static str = "gfv@local";

/// The full name of a local branch.
pub fn local_ref(branch: &str) -> (r: String)
    ensures
        r@ == "refs/heads/"@ + branch@,
{
    join2("refs/heads/", branch)
}

/// The full name of a remote-tracking branch.
pub fn remote_ref(remote: &str, branch: &str) -> (r: String)
    ensures
        r@ == "refs/remotes/"@ + remote@ + "/"@ + branch@,
{
    let head = join2("refs/remotes/", remote);
    join3(head.as_str(), "/", branch)
}

/// The refspec that pushes a local branch to the remote branch of the same
/// name.
pub fn push_refspec(branch: &str) -> (r: String)
    ensures
        r@ == "refs/heads/"@ + branch@ + ":refs/heads/"@ + branch@,
{
    let local = local_ref(branch);
    join3(local.as_str(), ":refs/heads/", branch)
}

/// The key of a remote's fetch URL in the repository configuration.
pub fn remote_url_key(name: &str) -> (r: String)
    ensures
        r@ == "remote."@ + name@ + ".url"@,
{
    join3("remote.", name, ".url")
}

/// A git repository that holds a vault's files.
pub struct GitRepo {
    repo: Repository,
}

impl GitRepo {
    /// Creates a repository at `path`: refused where one can be opened
    /// there already.
    pub fn init(path: &str) -> (r: Result<GitRepo, VaultError>)
        ensures
            r is Err ==> git_error(r->Err_0) || r->Err_0 is AlreadyExists && r->Err_0->AlreadyExists_0@
                == path@,
    {
        if repo_open(path).is_ok() {
            return Err(VaultError::AlreadyExists(path.to_owned()));
        }
        match repo_init(path) {
            Ok(repo) => Ok(GitRepo { repo }),
            Err(e) => Err(git_failure(&e)),
        }
    }

    /// Opens the repository at `path`.
    pub fn open(path: &str) -> (r: Result<GitRepo, VaultError>)
        ensures
            r is Err ==> git_error(r->Err_0),
    {
        match repo_open(path) {
            Ok(repo) => Ok(GitRepo { repo }),
            Err(e) => Err(git_failure(&e)),
        }
    }

    /// Clones `url` into `path`. Callers read a failure as "the remote is
    /// empty or unreachable: create a fresh repository instead".
    pub fn clone(url: &str, path: &str) -> (r: Result<GitRepo, VaultError>)
        ensures
            r is Err ==> git_error(r->Err_0),
    {
        let options = fetch_options(auth_callbacks(AuthAttempts::new()));
        match repo_clone(url, path, options) {
            Ok(repo) => Ok(GitRepo { repo }),
            Err(e) => Err(git_failure(&e)),
        }
    }

    /// Whether the repository has no commit yet.
    pub fn is_empty(&self) -> (r: Result<bool, VaultError>)
        ensures
            r is Err ==> git_error(r->Err_0),
    {
        match repo_is_empty(&self.repo) {
            Ok(b) => Ok(b),
            Err(e) => Err(git_failure(&e)),
        }
    }

    /// Adds the remote `name`.
    pub fn add_remote(&self, name: &str, url: &str) -> (r: Result<(), VaultError>)
        ensures
            r is Err ==> git_error(r->Err_0),
    {
        match repo_add_remote(&self.repo, name, url) {
            Ok(()) => Ok(()),
            Err(e) => Err(git_failure(&e)),
        }
    }

    /// The fetch URL of the remote `name`, read as `remote.<name>.url` from
    /// the repository configuration; `None` where it is not set.
    pub fn get_remote_url(&self, name: &str) -> (r: Result<Option<String>, VaultError>)
        ensures
            r is Err ==> git_error(r->Err_0),
    {
        let config = match repo_config(&self.repo) {
            Ok(c) => c,
            Err(e) => return Err(git_failure(&e)),
        };
        let key = remote_url_key(name);
        match config_string(&config, key.as_str()) {
            Ok(url) => Ok(Some(url)),
            Err(_) => Ok(None),
        }
    }

    /// Points the remote `name` at `url`, adding it where it is missing.
    pub fn set_remote(&self, name: &str, url: &str) -> (r: Result<(), VaultError>)
        ensures
            r is Err ==> git_error(r->Err_0),
    {
        let exists = repo_find_remote(&self.repo, name).is_ok();
        let done = if exists {
            repo_set_remote_url(&self.repo, name, url)
        } else {
            repo_add_remote(&self.repo, name, url)
        };
        match done {
            Ok(()) => Ok(()),
            Err(e) => Err(git_failure(&e)),
        }
    }

    /// Whether the working tree differs from the last commit, staged,
    /// unstaged or untracked.
    pub fn has_changes(&self) -> (r: Result<bool, VaultError>)
        ensures
            r is Err ==> git_error(r->Err_0),
    {
        match repo_status_count(&self.repo) {
            Ok(n) => Ok(dirty(n)),
            Err(e) => Err(git_failure(&e)),
        }
    }

    /// Whether the remote-tracking branch `remote/branch` is known locally.
    pub fn remote_branch_exists(&self, remote: &str, branch: &str) -> (r: bool) {
        let name = remote_ref(remote, branch);
        repo_has_reference(&self.repo, name.as_str())
    }

    /// Renames the current branch to `branch`, keeping its commit; HEAD
    /// follows. Nothing to do where it already has that name; refused where
    /// HEAD is not on a named branch.
    pub fn set_branch(&self, branch: &str) -> (r: Result<(), VaultError>)
        ensures
            r is Err ==> git_error(r->Err_0),
    {
        let current = self.current_branch()?;
        if same_text(current.as_str(), branch) {
            return Ok(());
        }
        let mut handle = match repo_find_local_branch(&self.repo, current.as_str()) {
            Ok(b) => b,
            Err(e) => return Err(git_failure(&e)),
        };
        match branch_rename(&mut handle, branch, true) {
            Ok(()) => Ok(()),
            Err(e) => Err(git_failure(&e)),
        }
    }

    /// The short name of the branch HEAD is on; refused where HEAD is
    /// detached.
    pub fn current_branch(&self) -> (r: Result<String, VaultError>)
        ensures
            r is Err ==> git_error(r->Err_0),
    {
        match repo_head_detached(&self.repo) {
            Ok(true) => return Err(VaultError::GitError("HEAD is not pointing to a branch".to_owned())),
            Ok(false) => {},
            Err(e) => return Err(git_failure(&e)),
        }
        match repo_head_shorthand(&self.repo) {
            Ok(Some(name)) => Ok(name),
            Ok(None) => Err(VaultError::GitError("HEAD is not pointing to a branch".to_owned())),
            Err(e) => Err(git_failure(&e)),
        }
    }

    /// Whether the local branch holds commits that `remote/branch` lacks.
    pub fn has_unpushed_commits(&self, remote: &str, branch: &str) -> (r: Result<bool, VaultError>)
        ensures
            r is Err ==> git_error(r->Err_0),
    {
        let local_name = local_ref(branch);
        let local = match repo_reference_target(&self.repo, local_name.as_str()) {
            Ok(Some(id)) => id,
            Ok(None) => return Err(VaultError::GitError("Local branch has no target".to_owned())),
            Err(e) => return Err(git_failure(&e)),
        };
        let remote_name = remote_ref(remote, branch);
        let theirs = match repo_reference_target(&self.repo, remote_name.as_str()) {
            Ok(Some(id)) => id,
            Ok(None) => return Err(VaultError::GitError("Remote branch has no target".to_owned())),
            Err(_) => return Ok(ahead_of_remote(false, false, None)),
        };
        if same_oid(local, theirs) {
            return Ok(ahead_of_remote(true, true, None));
        }
        let descends = match repo_descendant_of(&self.repo, local, theirs) {
            Ok(d) => Some(d),
            Err(_) => None,
        };
        Ok(ahead_of_remote(true, false, descends))
    }

    /// Stages the whole working tree.
    pub fn add_all(&self) -> (r: Result<(), VaultError>)
        ensures
            r is Err ==> git_error(r->Err_0),
    {
        let mut index = match repo_index(&self.repo) {
            Ok(i) => i,
            Err(e) => return Err(git_failure(&e)),
        };
        if let Err(e) = index_add_all(&mut index, "*") {
            return Err(git_failure(&e));
        }
        match index_write(&mut index) {
            Ok(()) => Ok(()),
            Err(e) => Err(git_failure(&e)),
        }
    }

    /// Commits what is staged, as `commit_plan` lays out: the fixed
    /// identity, `message` as given, HEAD moved to the new commit, whose
    /// parent is the HEAD commit unless the repository is empty.
    pub fn commit(&self, message: &str) -> (r: Result<(), VaultError>)
        ensures
            r is Err ==> git_error(r->Err_0),
    {
        let empty = self.is_empty()?;
        let plan = commit_plan(empty, message);
        let mut index = match repo_index(&self.repo) {
            Ok(i) => i,
            Err(e) => return Err(git_failure(&e)),
        };
        let tree_id = match index_write_tree(&mut index) {
            Ok(id) => id,
            Err(e) => return Err(git_failure(&e)),
        };
        let tree = match repo_find_tree(&self.repo, tree_id) {
            Ok(t) => t,
            Err(e) => return Err(git_failure(&e)),
        };
        let sig = match signature_now(plan.name.as_str(), plan.email.as_str()) {
            Ok(s) => s,
            Err(e) => return Err(git_failure(&e)),
        };
        let made = if plan.with_parent {
            let head = match repo_head_target(&self.repo) {
                Ok(Some(id)) => id,
                Ok(None) => return Err(VaultError::GitError("HEAD has no target".to_owned())),
                Err(e) => return Err(git_failure(&e)),
            };
            let parent = match repo_find_commit(&self.repo, head) {
                Ok(c) => c,
                Err(e) => return Err(git_failure(&e)),
            };
            repo_commit(&self.repo, plan.update_ref.as_str(), &sig, plan.message.as_str(), &tree, Some(&parent))
        } else {
            repo_commit(&self.repo, plan.update_ref.as_str(), &sig, plan.message.as_str(), &tree, None)
        };
        match made {
            Ok(_) => Ok(()),
            Err(e) => Err(git_failure(&e)),
        }
    }

    /// Retrieves `branch` of `remote` without integrating it.
    pub fn fetch(&self, remote: &str, branch: &str) -> (r: Result<(), VaultError>)
        ensures
            r is Err ==> git_error(r->Err_0),
    {
        let mut handle = match repo_find_remote(&self.repo, remote) {
            Ok(h) => h,
            Err(e) => return Err(git_failure(&e)),
        };
        let mut options = fetch_options(auth_callbacks(AuthAttempts::new()));
        let refspec = local_ref(branch);
        match remote_fetch(&mut handle, refspec.as_str(), &mut options) {
            Ok(()) => Ok(()),
            Err(e) => Err(git_failure(&e)),
        }
    }

    /// Integrates the fetched commit `theirs` of `branch`, given the merge
    /// analysis of it against HEAD: the result is `pull_outcome`'s. Only a
    /// fast-forward changes anything — the branch is moved to `theirs` and
    /// the working tree checked out by force — and only then can git fail.
    pub fn integrate(&self, branch: &str, theirs: Oid, up_to_date: bool, fast_forward: bool) -> (r: Result<PullState, VaultError>)
        ensures
            up_to_date ==> r == Ok::<PullState, VaultError>(PullState::UpToDate),
            !up_to_date && !fast_forward ==> r == Err::<PullState, VaultError>(VaultError::GitConflict),
            !up_to_date && fast_forward ==> r == Ok::<PullState, VaultError>(PullState::FastForwarded)
                || r is Err && git_error(r->Err_0),
    {
        let outcome = pull_outcome(up_to_date, fast_forward);
        match outcome {
            Ok(PullState::FastForwarded) => {
                let name = local_ref(branch);
                if let Err(e) = repo_set_reference(&self.repo, name.as_str(), theirs, true, "Fast-forward") {
                    return Err(git_failure(&e));
                }
                if let Err(e) = repo_set_head(&self.repo, name.as_str()) {
                    return Err(git_failure(&e));
                }
                match repo_checkout_head_forced(&self.repo) {
                    Ok(()) => outcome,
                    Err(e) => Err(git_failure(&e)),
                }
            },
            _ => outcome,
        }
    }

    /// Fetches `branch` of `remote`, then integrates it by fast-forward
    /// only (see `integrate`). A failed fetch is reported before anything
    /// is analysed or changed.
    pub fn pull(&self, remote: &str, branch: &str) -> (r: Result<PullState, VaultError>)
        ensures
            r is Ok ==> r->Ok_0 is UpToDate || r->Ok_0 is FastForwarded,
            r is Err ==> git_error(r->Err_0) || r->Err_0 is GitConflict,
    {
        if let Err(e) = self.fetch(remote, branch) {
            return Err(e);
        }
        let tracking = remote_ref(remote, branch);
        let theirs = match repo_reference_target(&self.repo, tracking.as_str()) {
            Ok(Some(id)) => id,
            Ok(None) => return Err(VaultError::GitError("Remote branch has no target".to_owned())),
            Err(e) => return Err(git_failure(&e)),
        };
        let annotated = match repo_annotated_commit(&self.repo, theirs) {
            Ok(a) => a,
            Err(e) => return Err(git_failure(&e)),
        };
        let (up_to_date, fast_forward) = match repo_merge_analysis(&self.repo, &annotated) {
            Ok(a) => a,
            Err(e) => return Err(git_failure(&e)),
        };
        self.integrate(branch, theirs, up_to_date, fast_forward)
    }

    /// Pushes the local `branch` to the remote branch of the same name; a
    /// rejection is reported, not retried.
    pub fn push(&self, remote: &str, branch: &str) -> (r: Result<(), VaultError>)
        ensures
            r is Err ==> git_error(r->Err_0),
    {
        let mut handle = match repo_find_remote(&self.repo, remote) {
            Ok(h) => h,
            Err(e) => return Err(git_failure(&e)),
        };
        let mut options = push_options(auth_callbacks(AuthAttempts::new()));
        let refspec = push_refspec(branch);
        match remote_push(&mut handle, refspec.as_str(), &mut options) {
            Ok(()) => Ok(()),
            Err(e) => Err(git_failure(&e)),
        }
    }
}

} // verus!
