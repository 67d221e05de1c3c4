//! A vault: a directory that holds a manifest and, under `repo`, the git
//! repository with the stored copies.
use vstd::prelude::*;

use crate::manifest::Manifest;
use crate::text::join2;

verus! {

/// A loaded vault.
pub struct Vault {
    pub vault_dir: String,
    /// Always `<vault_dir>/repo`.
    pub repo_path: String,
    pub manifest: Manifest,
}

impl Vault {
    /// Where the repository of the vault in `vault_dir` lives.
    pub fn repo_dir(vault_dir: &str) -> (r: String)
        ensures
            r@ == vault_dir@ + "/repo"@,
    {
        join2(vault_dir, "/repo")
    }

    /// The directory whose presence marks the vault in `vault_dir` as set up.
    pub fn git_dir(vault_dir: &str) -> (r: String)
        ensures
            r@ == vault_dir@ + "/repo/.git"@,
    {
        join2(vault_dir, "/repo/.git")
    }

    /// Where the manifest of the vault in `vault_dir` is kept.
    pub fn manifest_path(vault_dir: &str) -> (r: String)
        ensures
            r@ == vault_dir@ + "/.vault-index.json"@,
    {
        join2(vault_dir, "/.vault-index.json")
    }

    /// The vault in `vault_dir` with its loaded manifest.
    pub fn from_manifest(vault_dir: String, manifest: Manifest) -> (r: Vault)
        ensures
            r.vault_dir == vault_dir,
            r.repo_path@ == vault_dir@ + "/repo"@,
            r.manifest == manifest,
    {
        let repo_path = Vault::repo_dir(vault_dir.as_str());
        Vault { vault_dir, repo_path, manifest }
    }

    /// Where the stored copy of `vault_relative_path` lives.
    pub fn get_file_path(&self, vault_relative_path: &str) -> (r: String)
        ensures
            r@ == self.repo_path@ + "/"@ + vault_relative_path@,
    {
        let dir = join2(self.repo_path.as_str(), "/");
        join2(dir.as_str(), vault_relative_path)
    }
}

} // verus!
