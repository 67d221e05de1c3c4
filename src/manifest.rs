//! The manifest: which vault-relative paths are tracked, and for each the
//! source location it mirrors.
use vstd::prelude::*;

use crate::error::VaultError;
use crate::table::Table;
use crate::text::same_text;

verus! {

/// A point in time: whole seconds since the Unix epoch (UTC) and the
/// nanoseconds past that second.
#[derive(Debug, Clone, Copy, PartialEq, Eq)]
pub struct Timestamp {
    pub secs: i64,
    pub nanos: u32,
}

/// Relies on `chrono::Utc::now`, read as seconds and nanoseconds since the
/// epoch; nothing is promised of the time it reads.
#[verifier::external_body]
fn clock_now() -> (r: (i64, u32)) {
    let t = chrono::Utc::now();
    (t.timestamp(), t.timestamp_subsec_nanos())
}

impl Timestamp {
    /// The current time.
    pub fn now() -> (r: Timestamp) {
        let (secs, nanos) = clock_now();
        Timestamp { secs, nanos }
    }
}

/// Whether a tracked path is a single file or a directory tree.
#[derive(Debug, Clone, Copy, PartialEq, Eq)]
pub enum FileType {
    File,
    Directory,
}

impl FileType {
    /// The name the manifest file uses.
    pub fn as_str(&self) -> (r: &'static str)
        ensures
            r@ == file_type_name(*self),
    {
        match self {
            FileType::File => "file",
            FileType::Directory => "directory",
        }
    }

    /// The file type the manifest file names `name`, if any.
    pub fn from_name(name: &str) -> (r: Option<FileType>)
        ensures
            r matches Some(t) ==> file_type_name(t) == name@,
            r is None ==> name@ != "file"@ && name@ != "directory"@,
    {
        if same_text(name, "file") {
            Some(FileType::File)
        } else if same_text(name, "directory") {
            Some(FileType::Directory)
        } else {
            None
        }
    }

    /// The type of a path that is, or is not, a directory.
    pub fn of_path(is_dir: bool) -> (r: FileType)
        ensures
            r == (if is_dir { FileType::Directory } else { FileType::File }),
    {
        if is_dir {
            FileType::Directory
        } else {
            FileType::File
        }
    }
}

/// The name the manifest file uses for a file type.
pub open spec fn file_type_name(t: FileType) -> Seq<char> {
    match t {
        FileType::File => "file"@,
        FileType::Directory => "directory"@,
    }
}

/// One tracked mapping.
#[derive(Debug)]
pub struct FileEntry {
    /// The absolute path of the source copy.
    pub source_path: String,
    pub file_type: FileType,
    /// The one operating system it is restored on, if restricted.
    pub platform: Option<String>,
    pub added_at: Timestamp,
    pub last_sync: Option<Timestamp>,
}

/// A copy of an optional text.
pub fn copy_opt_text(o: &Option<String>) -> (r: Option<String>)
    ensures
        r == *o,
{
    match o {
        Some(s) => Some(s.clone()),
        None => None,
    }
}

impl FileEntry {
    /// A field-for-field copy.
    pub fn duplicate(&self) -> (r: FileEntry)
        ensures
            r == *self,
    {
        FileEntry {
            source_path: self.source_path.clone(),
            file_type: self.file_type,
            platform: copy_opt_text(&self.platform),
            added_at: self.added_at,
            last_sync: self.last_sync,
        }
    }
}

/// The remote that a vault synchronises with.
#[derive(Debug)]
pub struct RemoteConfig {
    pub url: String,
    pub branch: String,
}

impl RemoteConfig {
    /// A field-for-field copy.
    pub fn duplicate(&self) -> (r: RemoteConfig)
        ensures
            r == *self,
    {
        RemoteConfig { url: self.url.clone(), branch: self.branch.clone() }
    }
}

/// The registry of tracked paths of one vault.
pub struct Manifest {
    pub version: String,
    pub vault_path: String,
    /// Vault-relative path to its entry.
    pub files: Table<FileEntry>,
    /// Absent in local-only mode.
    pub remote: Option<RemoteConfig>,
}

impl Manifest {
    /// Each vault-relative path is tracked at most once.
    pub open spec fn wf(&self) -> bool {
        self.files.wf()
    }

    /// The tracked entries, by vault-relative path.
    pub open spec fn entries(&self) -> Map<Seq<char>, FileEntry> {
        self.files@
    }

    /// A manifest that tracks nothing.
    pub fn new(vault_path: String, remote: Option<RemoteConfig>) -> (r: Manifest)
        ensures
            r.wf(),
            r.entries() == Map::<Seq<char>, FileEntry>::empty(),
            r.version@ == "1.0"@,
            r.vault_path == vault_path,
            r.remote == remote,
    {
        Manifest { version: "1.0".to_owned(), vault_path, files: Table::new(), remote }
    }

    /// Tracks `entry` under `vault_path`, replacing any entry there.
    pub fn add_file(&mut self, vault_path: String, entry: FileEntry)
        requires
            old(self).wf(),
        ensures
            final(self).wf(),
            final(self).entries() == old(self).entries().insert(vault_path@, entry),
            final(self).remote == old(self).remote,
            final(self).version == old(self).version,
            final(self).vault_path == old(self).vault_path,
    {
        self.files.insert(vault_path, entry);
    }

    /// Stops tracking `vault_path`, giving back its entry.
    pub fn remove_file(&mut self, vault_path: &str) -> (r: Option<FileEntry>)
        requires
            old(self).wf(),
        ensures
            final(self).wf(),
            final(self).entries() == old(self).entries().remove(vault_path@),
            final(self).remote == old(self).remote,
            final(self).version == old(self).version,
            final(self).vault_path == old(self).vault_path,
            match r {
                Some(e) => old(self).entries().contains_key(vault_path@) && old(self).entries()[vault_path@] == e,
                None => !old(self).entries().contains_key(vault_path@),
            },
    {
        self.files.remove(vault_path)
    }

    /// The entry tracked under `vault_path`.
    pub fn get_file(&self, vault_path: &str) -> (r: Option<&FileEntry>)
        requires
            self.wf(),
        ensures
            match r {
                Some(e) => self.entries().contains_key(vault_path@) && self.entries()[vault_path@] == *e,
                None => !self.entries().contains_key(vault_path@),
            },
    {
        self.files.get(vault_path)
    }

    /// Registers a mapping: refused where `vault_path` is already tracked,
    /// or where neither the source nor the stored copy exists.
    pub fn link(
        &mut self,
        vault_path: String,
        entry: FileEntry,
        exists_locally: bool,
        exists_in_vault: bool,
    ) -> (r: Result<(), VaultError>)
        requires
            old(self).wf(),
        ensures
            final(self).wf(),
            final(self).remote == old(self).remote,
            old(self).entries().contains_key(vault_path@) ==> r == Err::<(), VaultError>(
                VaultError::AlreadyManaged(vault_path),
            ) && final(self).entries() == old(self).entries(),
            !old(self).entries().contains_key(vault_path@) && !exists_locally && !exists_in_vault
                ==> r == Err::<(), VaultError>(VaultError::FileNotFound(vault_path))
                && final(self).entries() == old(self).entries(),
            !old(self).entries().contains_key(vault_path@) && (exists_locally || exists_in_vault)
                ==> r is Ok && final(self).entries() == old(self).entries().insert(
                vault_path@,
                entry,
            ),
    {
        if self.files.contains_key(vault_path.as_str()) {
            return Err(VaultError::AlreadyManaged(vault_path));
        }
        if !exists_locally && !exists_in_vault {
            return Err(VaultError::FileNotFound(vault_path));
        }
        self.files.insert(vault_path, entry);
        Ok(())
    }

    /// Stops tracking `vault_path`: refused where it is not tracked.
    pub fn unlink(&mut self, vault_path: &str) -> (r: Result<FileEntry, VaultError>)
        requires
            old(self).wf(),
        ensures
            final(self).wf(),
            final(self).remote == old(self).remote,
            final(self).entries() == old(self).entries().remove(vault_path@),
            old(self).entries().contains_key(vault_path@) ==> r == Ok::<FileEntry, VaultError>(
                old(self).entries()[vault_path@],
            ),
            !old(self).entries().contains_key(vault_path@) ==> r is Err && r->Err_0 is NotInManifest
                && r->Err_0->NotInManifest_0@ == vault_path@,
    {
        match self.files.remove(vault_path) {
            Some(e) => Ok(e),
            None => Err(VaultError::NotInManifest(vault_path.to_owned())),
        }
    }

    /// Sets the last-sync time of the entry under `vault_path`, if tracked.
    pub fn record_sync(&mut self, vault_path: &str, at: Timestamp)
        requires
            old(self).wf(),
        ensures
            final(self).wf(),
            final(self).remote == old(self).remote,
            old(self).entries().contains_key(vault_path@) ==> final(self).entries()
                == old(self).entries().insert(
                vault_path@,
                FileEntry { last_sync: Some(at), ..old(self).entries()[vault_path@] },
            ),
            !old(self).entries().contains_key(vault_path@) ==> final(self).entries() == old(self).entries(),
    {
        match self.files.remove(vault_path) {
            Some(e) => {
                let updated = FileEntry { last_sync: Some(at), ..e };
                self.files.insert(vault_path.to_owned(), updated);
                proof {
                    assert(self.entries() =~= old(self).entries().insert(vault_path@, updated));
                }
            },
            None => {
                proof {
                    assert(self.entries() =~= old(self).entries());
                }
            },
        }
    }

    /// Configures the remote to synchronise with.
    pub fn set_remote(&mut self, url: String, branch: String)
        ensures
            final(self).remote == Some(RemoteConfig { url, branch }),
            final(self).files == old(self).files,
    {
        self.remote = Some(RemoteConfig { url, branch });
    }

    /// Configures the remote only where none is configured yet; says
    /// whether it did.
    pub fn adopt_remote(&mut self, url: String, branch: String) -> (r: bool)
        ensures
            final(self).files == old(self).files,
            r == old(self).remote.is_none(),
            r ==> final(self).remote == Some(RemoteConfig { url, branch }),
            !r ==> final(self).remote == old(self).remote,
    {
        if self.remote.is_none() {
            self.remote = Some(RemoteConfig { url, branch });
            true
        } else {
            false
        }
    }

    /// Changes the branch of the configured remote: refused in local-only
    /// mode.
    pub fn set_remote_branch(&mut self, branch: String) -> (r: Result<(), VaultError>)
        ensures
            final(self).files == old(self).files,
            old(self).remote is None ==> r == Err::<(), VaultError>(VaultError::NoRemote)
                && final(self).remote is None,
            old(self).remote matches Some(rc) ==> r is Ok && final(self).remote == Some(
                RemoteConfig { branch, ..rc },
            ),
    {
        match &mut self.remote {
            Some(rc) => {
                rc.branch = branch;
                Ok(())
            },
            None => Err(VaultError::NoRemote),
        }
    }

    /// Returns to local-only mode; says whether a remote was configured.
    pub fn clear_remote(&mut self) -> (r: bool)
        ensures
            final(self).remote.is_none(),
            final(self).files == old(self).files,
            r == old(self).remote.is_some(),
    {
        let had = self.remote.is_some();
        self.remote = None;
        had
    }

    /// The number of tracked entries.
    pub fn len(&self) -> (r: usize)
        requires
            self.wf(),
        ensures
            r as nat == self.entries().len(),
    {
        self.files.len()
    }
}

/// Linking a path and then unlinking it leaves the path untracked, whether
/// the link was accepted or refused; where the path was not tracked before,
/// the manifest's entries are back to what they were.
pub proof fn lemma_link_then_unlink(
    before: Map<Seq<char>, FileEntry>,
    linked: Map<Seq<char>, FileEntry>,
    p: Seq<char>,
    e: FileEntry,
)
    requires
        linked == before.insert(p, e) || linked == before,
    ensures
        !linked.remove(p).contains_key(p),
        !before.contains_key(p) ==> linked.remove(p) == before,
{
    if !before.contains_key(p) {
        assert(linked.remove(p) =~= before);
    }
}

/// Adding an entry and reading it back gives every field as it was given,
/// an absent platform or last-sync time staying absent.
pub proof fn lemma_add_then_get(before: Map<Seq<char>, FileEntry>, p: Seq<char>, e: FileEntry)
    ensures
        before.insert(p, e).contains_key(p),
        before.insert(p, e)[p] == e,
        before.insert(p, e)[p].platform == e.platform,
        before.insert(p, e)[p].last_sync == e.last_sync,
{
}

} // verus!
