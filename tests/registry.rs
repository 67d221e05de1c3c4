use gfv::config::{get_active_vault_name, get_vault_dir, join_words, parse_ai_key, resolve_aliases, AiKey, Config};
use gfv::error::VaultError;

fn strings(v: &[&str]) -> Vec<String> {
    v.iter().map(|s| s.to_string()).collect()
}

#[test]
fn fresh_config_defaults() {
    let c = Config::fresh();
    assert_eq!(c.current.active, "default");
    assert_eq!(c.sync.default_branch, "main");
    assert_eq!(c.sync.conflict_strategy, "prompt");
    assert_eq!(c.vaults.len(), 0);
    assert!(c.ai.endpoint.is_none() && c.ai.api_key.is_none() && c.ai.model.is_none());
}

#[test]
fn first_created_vault_becomes_active() {
    let mut c = Config::fresh();
    c.create_vault("work".to_string(), "/v/work".to_string()).unwrap();
    assert_eq!(c.current.active, "work");
    c.create_vault("home".to_string(), "/v/home".to_string()).unwrap();
    assert_eq!(c.current.active, "work");
    assert_eq!(c.get_vault_dir("home"), Some("/v/home".to_string()));
    assert_eq!(c.get_active_vault_dir(), Ok("/v/work".to_string()));
}

#[test]
fn create_refuses_taken_name() {
    let mut c = Config::fresh();
    c.create_vault("work".to_string(), "/v/work".to_string()).unwrap();
    let r = c.create_vault("work".to_string(), "/elsewhere".to_string());
    assert_eq!(r, Err(VaultError::AlreadyExists("work".to_string())));
    assert_eq!(c.get_vault_dir("work"), Some("/v/work".to_string()));
}

#[test]
fn add_vault_activates_when_active_is_unregistered() {
    let mut c = Config::fresh();
    c.add_vault("a".to_string(), "/v/a".to_string());
    assert_eq!(c.current.active, "a");
    c.add_vault("b".to_string(), "/v/b".to_string());
    assert_eq!(c.current.active, "a");
}

#[test]
fn switch_requires_registered_vault() {
    let mut c = Config::fresh();
    c.create_vault("a".to_string(), "/v/a".to_string()).unwrap();
    c.create_vault("b".to_string(), "/v/b".to_string()).unwrap();
    assert_eq!(c.switch_vault("zzz"), Err(VaultError::VaultNotFound("zzz".to_string())));
    assert_eq!(c.current.active, "a");
    c.switch_vault("b").unwrap();
    assert_eq!(c.current.active, "b");
}

#[test]
fn remove_refuses_active_vault() {
    let mut c = Config::fresh();
    c.create_vault("a".to_string(), "/v/a".to_string()).unwrap();
    c.create_vault("b".to_string(), "/v/b".to_string()).unwrap();
    assert_eq!(c.remove_vault("a"), Err(VaultError::ActiveVault("a".to_string())));
    assert_eq!(c.remove_vault("x"), Err(VaultError::VaultNotFound("x".to_string())));
    assert_eq!(c.remove_vault("b"), Ok("/v/b".to_string()));
    assert!(!c.has_vault("b"));
    assert!(c.has_vault("a"));
}

#[test]
fn active_dir_of_unregistered_active_vault() {
    let c = Config::fresh();
    assert_eq!(c.get_active_vault_dir(), Err(VaultError::VaultNotFound("default".to_string())));
}

#[test]
fn locates_default_vault_without_registry() {
    let c = Config::fresh();
    assert_eq!(get_vault_dir(&c, "default", Some("/home/u".to_string())), Ok("/home/u/.gfv/default".to_string()));
    assert_eq!(get_vault_dir(&c, "default", None), Err(VaultError::NoHomeDirectory));
    assert_eq!(get_vault_dir(&c, "other", Some("/home/u".to_string())), Err(VaultError::VaultNotFound("other".to_string())));
}

#[test]
fn active_vault_name_defaults() {
    assert_eq!(get_active_vault_name(None), "default");
    let mut c = Config::fresh();
    c.current.active = "x".to_string();
    assert_eq!(get_active_vault_name(Some(&c)), "default");
    c.add_vault("w".to_string(), "/v/w".to_string());
    c.add_vault("y".to_string(), "/v/y".to_string());
    c.current.active = "y".to_string();
    assert_eq!(get_active_vault_name(Some(&c)), "y");
}

#[test]
fn target_vault_prefers_named() {
    let c = Config::fresh();
    assert_eq!(c.target_vault(Some("n".to_string())), "n");
    assert_eq!(c.target_vault(None), "default");
}

#[test]
fn ai_keys() {
    assert_eq!(parse_ai_key("ai.endpoint"), Ok(AiKey::Endpoint));
    assert_eq!(parse_ai_key("ai.api_key"), Ok(AiKey::ApiKey));
    assert_eq!(parse_ai_key("ai.model"), Ok(AiKey::Model));
    assert_eq!(parse_ai_key("ai.other"), Err(VaultError::UnknownKey("ai.other".to_string())));
    let mut c = Config::fresh();
    c.set_ai_value(AiKey::Model, Some("gpt".to_string()));
    assert_eq!(c.ai_value(AiKey::Model), &Some("gpt".to_string()));
    assert_eq!(c.ai_value(AiKey::Endpoint), &None);
    c.set_ai_value(AiKey::Model, None);
    assert_eq!(c.ai_value(AiKey::Model), &None);
}

#[test]
fn alias_validation() {
    let mut c = Config::fresh();
    assert_eq!(c.add_alias("".to_string(), &strings(&["vault", "list"])), Err(VaultError::InvalidAlias("".to_string())));
    assert_eq!(c.add_alias("backup".to_string(), &strings(&["vault", "list"])), Err(VaultError::InvalidAlias("backup".to_string())));
    assert_eq!(c.add_alias("vl".to_string(), &strings(&[])), Err(VaultError::InvalidAlias("vl".to_string())));
    c.add_alias("use".to_string(), &strings(&["vault", "switch"])).unwrap();
    assert_eq!(c.aliases.get("use"), Some(&"vault switch".to_string()));
    assert_eq!(c.remove_alias("use"), Ok("vault switch".to_string()));
    assert_eq!(c.remove_alias("use"), Err(VaultError::InvalidAlias("use".to_string())));
}

#[test]
fn joins_words_with_spaces() {
    assert_eq!(join_words(&strings(&["a", "bc", "d"])), "a bc d");
    assert_eq!(join_words(&strings(&[])), "");
}

#[test]
fn expands_alias_command() {
    let mut c = Config::fresh();
    c.add_alias("use".to_string(), &strings(&["vault", "  switch "])).unwrap();
    let r = resolve_aliases(&c, strings(&["gfv", "use", "work"]));
    assert_eq!(r, strings(&["gfv", "vault", "switch", "work"]));
    let r = resolve_aliases(&c, strings(&["gfv", "status"]));
    assert_eq!(r, strings(&["gfv", "status"]));
    let r = resolve_aliases(&c, strings(&["gfv"]));
    assert_eq!(r, strings(&["gfv"]));
}

#[test]
fn active_must_be_registered() {
    let mut c = Config::fresh();
    assert!(c.active_is_registered());
    c.create_vault("a".to_string(), "/v/a".to_string()).unwrap();
    assert!(c.active_is_registered());
    c.current.active = "ghost".to_string();
    assert!(!c.active_is_registered());
}
