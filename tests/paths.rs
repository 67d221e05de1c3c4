use gfv::error::VaultError;
use gfv::paths::{dotfile_vault_name, infer_vault_path, is_sensitive_file, is_sensitive_text, resolve_source};

const HOME: &str = "/home/alice";

#[test]
fn infers_rc_dotfile() {
    assert_eq!(infer_vault_path("/home/alice/.zshrc", HOME).unwrap(), "zsh/zshrc");
}

#[test]
fn infers_gitconfig() {
    assert_eq!(infer_vault_path("/home/alice/.gitconfig", HOME).unwrap(), "git/gitconfig");
}

#[test]
fn infers_config_dir_entry() {
    assert_eq!(infer_vault_path("/home/alice/.config/nvim/init.vim", HOME).unwrap(), "nvim/init.vim");
}

#[test]
fn infers_generic_dotfile() {
    assert_eq!(infer_vault_path("/home/alice/.tmux.conf", HOME).unwrap(), "tmux.conf/tmux.conf");
}

#[test]
fn infers_ssh_directory() {
    assert_eq!(infer_vault_path("/home/alice/.ssh", HOME).unwrap(), "ssh/ssh");
}

#[test]
fn infers_editor_settings() {
    assert_eq!(
        infer_vault_path("/home/alice/Library/Application Support/Code/User/settings.json", HOME).unwrap(),
        "vscode/settings.json"
    );
}

#[test]
fn infers_path_under_home() {
    assert_eq!(infer_vault_path("/home/alice/notes/todo.txt", HOME).unwrap(), "notes/todo.txt");
}

#[test]
fn infers_dotfile_deeper_in_home_as_relative_path() {
    assert_eq!(infer_vault_path("/home/alice/work/.envrc", HOME).unwrap(), "work/.envrc");
}

#[test]
fn infers_file_name_outside_home() {
    assert_eq!(infer_vault_path("/etc/hosts", HOME).unwrap(), "hosts");
}

#[test]
fn config_dir_itself_is_a_dotfile() {
    assert_eq!(infer_vault_path("/home/alice/.config", HOME).unwrap(), "config/config");
}

#[test]
fn refuses_path_without_file_name() {
    assert_eq!(
        infer_vault_path("/home/alice/", HOME),
        Err(VaultError::InvalidFileName("/home/alice/".to_string()))
    );
}

#[test]
fn dotfile_named_rc_only() {
    assert_eq!(dotfile_vault_name(".rc"), "/rc");
    assert_eq!(dotfile_vault_name(".vimrc"), "vim/vimrc");
}

#[test]
fn resolves_tilde_and_relative_paths() {
    assert_eq!(resolve_source("~/.zshrc", HOME, "/tmp"), "/home/alice/.zshrc");
    assert_eq!(resolve_source("~", HOME, "/tmp"), "/home/alice");
    assert_eq!(resolve_source("/etc/hosts", HOME, "/tmp"), "/etc/hosts");
    assert_eq!(resolve_source("notes.txt", HOME, "/tmp"), "/tmp/notes.txt");
    assert_eq!(resolve_source("~other", HOME, "/tmp"), "/tmp/~other");
}

#[test]
fn flags_sensitive_paths() {
    assert!(is_sensitive_file("/home/alice/project/.env"));
    assert!(is_sensitive_file("/home/alice/MY_SECRET.txt"));
    assert!(is_sensitive_file("/home/alice/Credentials.json"));
    assert!(is_sensitive_file("/home/alice/server.KEY"));
    assert!(is_sensitive_file("/home/alice/cert.pem"));
    assert!(!is_sensitive_file("/home/alice/.zshrc"));
    assert!(!is_sensitive_file("/home/alice/key.txt"));
}

#[test]
fn sensitive_text_is_case_exact() {
    assert!(!is_sensitive_text("/home/alice/PASSWORD"));
    assert!(is_sensitive_text("/home/alice/password"));
}
