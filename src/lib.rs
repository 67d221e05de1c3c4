//! A multi-vault file synchronisation library: a manifest of tracked paths,
//! a version-controlled store driven through git, and the decisions that
//! back up and restore files between their sources and that store.

mod text;
pub mod error;
pub mod table;
pub mod paths;
pub mod manifest;
pub mod config;
pub mod sync;
pub mod git_ops;
pub mod vault;
pub mod ai;
