use vstd::prelude::*;

use crate::text::join2;

verus! {

/// Every failure that the library reports.
#[derive(Debug, PartialEq, Eq)]
pub enum VaultError {
    /// No vault is set up at the given directory.
    NotInitialized(String),
    /// A vault (or vault name) already exists.
    AlreadyExists(String),
    /// A path exists in neither of the places it was looked for.
    FileNotFound(String),
    /// The vault-relative path is already tracked.
    AlreadyManaged(String),
    /// The vault-relative path is not tracked.
    NotInManifest(String),
    /// A generic version-control failure, with the backend's message.
    GitError(String),
    /// The operation needs a remote and none is configured.
    NoRemote,
    /// A pull found that local and remote histories diverged.
    GitConflict,
    /// Every credential source failed.
    AuthenticationFailed,
    /// The manifest could not be understood.
    InvalidManifest,
    /// A filesystem failure, with its message.
    IoError(String),
    /// A malformed manifest or configuration, with its message.
    ParseError(String),
    /// A named vault is not registered.
    VaultNotFound(String),
    /// The active vault cannot be removed.
    ActiveVault(String),
    /// An unknown configuration key.
    UnknownKey(String),
    /// An alias that cannot be created.
    InvalidAlias(String),
    /// The home directory could not be determined.
    NoHomeDirectory,
    /// A path whose last component is not a usable file name.
    InvalidFileName(String),
    /// There is nothing to generate a commit message from.
    EmptyDiff,
}

impl VaultError {
    /// A sentence that describes the failure.
    pub fn message(&self) -> (r: String) {
        match self {
            VaultError::NotInitialized(p) => join2("Vault not initialized at ", p.as_str()),
            VaultError::AlreadyExists(p) => join2("Vault already exists at ", p.as_str()),
            VaultError::FileNotFound(p) => join2("File not found: ", p.as_str()),
            VaultError::AlreadyManaged(p) => join2("File already managed: ", p.as_str()),
            VaultError::NotInManifest(p) => join2("File not in manifest: ", p.as_str()),
            VaultError::GitError(m) => join2("Git operation failed: ", m.as_str()),
            VaultError::NoRemote => "Remote not configured".to_owned(),
            VaultError::GitConflict => "Git conflict detected".to_owned(),
            VaultError::AuthenticationFailed => "Authentication failed".to_owned(),
            VaultError::InvalidManifest => "Invalid manifest format".to_owned(),
            VaultError::IoError(m) => join2("IO error: ", m.as_str()),
            VaultError::ParseError(m) => join2("Parse error: ", m.as_str()),
            VaultError::VaultNotFound(n) => join2("Vault not found: ", n.as_str()),
            VaultError::ActiveVault(n) => join2("Cannot remove the currently active vault: ", n.as_str()),
            VaultError::UnknownKey(k) => join2("Unknown configuration key: ", k.as_str()),
            VaultError::InvalidAlias(n) => join2("Invalid alias: ", n.as_str()),
            VaultError::NoHomeDirectory => "Failed to get home directory".to_owned(),
            VaultError::InvalidFileName(p) => join2("Invalid file name: ", p.as_str()),
            VaultError::EmptyDiff => "No changes to generate commit message for".to_owned(),
        }
    }
}

} // verus!
