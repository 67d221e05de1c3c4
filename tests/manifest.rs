use gfv::error::VaultError;
use gfv::manifest::{FileEntry, FileType, Manifest, RemoteConfig, Timestamp};

fn entry(source: &str, platform: Option<&str>, last_sync: Option<Timestamp>) -> FileEntry {
    FileEntry {
        source_path: source.to_string(),
        file_type: FileType::File,
        platform: platform.map(|p| p.to_string()),
        added_at: Timestamp { secs: 1_700_000_000, nanos: 5 },
        last_sync,
    }
}

#[test]
fn new_manifest_is_empty() {
    let m = Manifest::new("/v".to_string(), None);
    assert_eq!(m.version, "1.0");
    assert_eq!(m.len(), 0);
    assert!(m.remote.is_none());
}

#[test]
fn link_then_unlink_leaves_path_untracked() {
    let mut m = Manifest::new("/v".to_string(), None);
    m.link("zsh/zshrc".to_string(), entry("/h/.zshrc", None, None), true, false).unwrap();
    assert!(m.get_file("zsh/zshrc").is_some());
    let removed = m.unlink("zsh/zshrc").unwrap();
    assert_eq!(removed.source_path, "/h/.zshrc");
    assert!(m.get_file("zsh/zshrc").is_none());
    assert_eq!(m.len(), 0);
}

#[test]
fn link_refuses_tracked_path() {
    let mut m = Manifest::new("/v".to_string(), None);
    m.link("a".to_string(), entry("/h/a", None, None), true, true).unwrap();
    let r = m.link("a".to_string(), entry("/h/b", None, None), true, true);
    assert_eq!(r, Err(VaultError::AlreadyManaged("a".to_string())));
    assert_eq!(m.get_file("a").unwrap().source_path, "/h/a");
}

#[test]
fn link_needs_one_existing_copy() {
    let mut m = Manifest::new("/v".to_string(), None);
    let r = m.link("a".to_string(), entry("/h/a", None, None), false, false);
    assert_eq!(r, Err(VaultError::FileNotFound("a".to_string())));
    assert!(m.link("b".to_string(), entry("/h/b", None, None), false, true).is_ok());
    assert!(m.link("c".to_string(), entry("/h/c", None, None), true, false).is_ok());
    assert_eq!(m.len(), 2);
}

#[test]
fn unlink_refuses_untracked_path() {
    let mut m = Manifest::new("/v".to_string(), None);
    assert_eq!(m.unlink("nope").unwrap_err(), VaultError::NotInManifest("nope".to_string()));
}

#[test]
fn add_then_get_keeps_every_field() {
    let mut m = Manifest::new("/v".to_string(), None);
    m.add_file("git/gitconfig".to_string(), entry("/h/.gitconfig", None, None));
    m.add_file(
        "ssh/config".to_string(),
        entry("/h/.ssh/config", Some("linux"), Some(Timestamp { secs: 42, nanos: 7 })),
    );
    let a = m.get_file("git/gitconfig").unwrap();
    assert_eq!(a.source_path, "/h/.gitconfig");
    assert_eq!(a.file_type, FileType::File);
    assert_eq!(a.platform, None);
    assert_eq!(a.added_at, Timestamp { secs: 1_700_000_000, nanos: 5 });
    assert_eq!(a.last_sync, None);
    let b = m.get_file("ssh/config").unwrap();
    assert_eq!(b.platform.as_deref(), Some("linux"));
    assert_eq!(b.last_sync, Some(Timestamp { secs: 42, nanos: 7 }));
}

#[test]
fn add_replaces_entry() {
    let mut m = Manifest::new("/v".to_string(), None);
    m.add_file("a".to_string(), entry("/h/1", None, None));
    m.add_file("a".to_string(), entry("/h/2", None, None));
    assert_eq!(m.len(), 1);
    assert_eq!(m.get_file("a").unwrap().source_path, "/h/2");
    assert_eq!(m.remove_file("a").unwrap().source_path, "/h/2");
    assert!(m.remove_file("a").is_none());
}

#[test]
fn record_sync_sets_last_sync() {
    let mut m = Manifest::new("/v".to_string(), None);
    m.add_file("a".to_string(), entry("/h/a", None, None));
    m.record_sync("a", Timestamp { secs: 9, nanos: 1 });
    m.record_sync("missing", Timestamp { secs: 9, nanos: 1 });
    assert_eq!(m.get_file("a").unwrap().last_sync, Some(Timestamp { secs: 9, nanos: 1 }));
    assert_eq!(m.len(), 1);
}

#[test]
fn remote_set_and_cleared() {
    let mut m = Manifest::new("/v".to_string(), None);
    assert!(!m.clear_remote());
    m.set_remote("git@host:me/dots.git".to_string(), "main".to_string());
    let r: &RemoteConfig = m.remote.as_ref().unwrap();
    assert_eq!(r.url, "git@host:me/dots.git");
    assert_eq!(r.branch, "main");
    assert!(m.clear_remote());
    assert!(m.remote.is_none());
}

#[test]
fn file_type_names() {
    assert_eq!(FileType::File.as_str(), "file");
    assert_eq!(FileType::Directory.as_str(), "directory");
}

#[test]
fn keys_lists_each_path_once() {
    let mut m = Manifest::new("/v".to_string(), None);
    m.add_file("b".to_string(), entry("/h/b", None, None));
    m.add_file("a".to_string(), entry("/h/a", None, None));
    m.add_file("b".to_string(), entry("/h/b2", None, None));
    let mut keys = m.files.keys();
    keys.sort();
    assert_eq!(keys, vec!["a".to_string(), "b".to_string()]);
}

#[test]
fn file_type_from_name() {
    assert_eq!(FileType::from_name("file"), Some(FileType::File));
    assert_eq!(FileType::from_name("directory"), Some(FileType::Directory));
    assert_eq!(FileType::from_name("dir"), None);
    assert_eq!(FileType::of_path(true), FileType::Directory);
    assert_eq!(FileType::of_path(false), FileType::File);
}

#[test]
fn remote_branch_changes_need_a_remote() {
    let mut m = Manifest::new("/v".to_string(), None);
    assert_eq!(m.set_remote_branch("dev".to_string()), Err(VaultError::NoRemote));
    m.set_remote("u".to_string(), "main".to_string());
    m.set_remote_branch("dev".to_string()).unwrap();
    assert_eq!(m.remote.as_ref().unwrap().branch, "dev");
    assert_eq!(m.remote.as_ref().unwrap().url, "u");
}
