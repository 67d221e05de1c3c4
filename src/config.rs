//! The global configuration: the registry of vaults with its one active
//! vault, the commit-message provider's settings, sync defaults and
//! command aliases.
use vstd::prelude::*;

use crate::error::VaultError;
use crate::table::Table;
use crate::text::{join2, same_text};

verus! {

/// Which vault commands act on when none is named.
pub struct CurrentConfig {
    pub active: String,
}

/// Settings of the optional commit-message provider.
pub struct AiConfig {
    pub endpoint: Option<String>,
    pub api_key: Option<String>,
    pub model: Option<String>,
}

/// Synchronisation defaults.
pub struct SyncConfig {
    pub conflict_strategy: String,
    /// The branch a new vault uses when nothing else decides.
    pub default_branch: String,
}

/// The conflict strategy used when the configuration names none.
pub fn default_conflict_strategy() -> (r: String)
    ensures
        r@ == "prompt"@,
{
    "prompt".to_owned()
}

/// The branch used when the configuration names none.
pub fn default_branch() -> (r: String)
    ensures
        r@ == "main"@,
{
    "main".to_owned()
}

impl Default for SyncConfig {
    fn default() -> (r: SyncConfig)
        ensures
            r.conflict_strategy@ == "prompt"@,
            r.default_branch@ == "main"@,
    {
        SyncConfig { conflict_strategy: default_conflict_strategy(), default_branch: default_branch() }
    }
}

/// The vault name used when no vault is registered yet.
pub open spec fn default_vault_name() -> Seq<char> {
    "default"@
}

/// The global configuration.
pub struct Config {
    /// Vault name to vault directory.
    pub vaults: Table<String>,
    pub current: CurrentConfig,
    pub ai: AiConfig,
    pub sync: SyncConfig,
    /// Alias name to the command words it stands for, joined by spaces.
    pub aliases: Table<String>,
}

/// A key of the provider settings.
#[derive(Debug, Clone, Copy, PartialEq, Eq)]
pub enum AiKey {
    Endpoint,
    ApiKey,
    Model,
}

/// The provider setting that a configuration key names.
pub open spec fn ai_key_of(key: Seq<char>) -> Option<AiKey> {
    if key == "ai.endpoint"@ {
        Some(AiKey::Endpoint)
    } else if key == "ai.api_key"@ {
        Some(AiKey::ApiKey)
    } else if key == "ai.model"@ {
        Some(AiKey::Model)
    } else {
        None
    }
}

/// The provider setting that `key` names; an unknown key is refused.
pub fn parse_ai_key(key: &str) -> (r: Result<AiKey, VaultError>)
    ensures
        match ai_key_of(key@) {
            Some(k) => r == Ok::<AiKey, VaultError>(k),
            None => r is Err && r->Err_0 is UnknownKey && r->Err_0->UnknownKey_0@ == key@,
        },
{
    if same_text(key, "ai.endpoint") {
        Ok(AiKey::Endpoint)
    } else if same_text(key, "ai.api_key") {
        Ok(AiKey::ApiKey)
    } else if same_text(key, "ai.model") {
        Ok(AiKey::Model)
    } else {
        Err(VaultError::UnknownKey(key.to_owned()))
    }
}

/// The command names that an alias may not take.
pub open spec fn reserved_command(name: Seq<char>) -> bool {
    name == "init"@ || name == "link"@ || name == "unlink"@ || name == "list"@ || name
        == "status"@ || name == "backup"@ || name == "restore"@ || name == "config"@ || name
        == "alias"@ || name == "vault"@ || name == "debug"@
}

/// Whether `name` is one of the tool's own commands.
pub fn is_reserved_command(name: &str) -> (r: bool)
    ensures
        r == reserved_command(name@),
{
    same_text(name, "init") || same_text(name, "link") || same_text(name, "unlink") || same_text(
        name,
        "list",
    ) || same_text(name, "status") || same_text(name, "backup") || same_text(name, "restore")
        || same_text(name, "config") || same_text(name, "alias") || same_text(name, "vault")
        || same_text(name, "debug")
}

/// The words joined by single spaces.
pub open spec fn joined_words(words: Seq<Seq<char>>) -> Seq<char>
    decreases words.len(),
{
    if words.len() == 0 {
        Seq::empty()
    } else if words.len() == 1 {
        words[0]
    } else {
        joined_words(words.drop_last()) + " "@ + words.last()
    }
}

/// The views of a list of texts.
pub open spec fn texts(v: Seq<String>) -> Seq<Seq<char>> {
    v.map_values(|s: String| s@)
}

/// The words joined by single spaces.
pub fn join_words(words: &Vec<String>) -> (r: String)
    ensures
        r@ == joined_words(texts(words@)),
{
    let mut r = String::new();
    let mut i: usize = 0;
    while i < words.len()
        invariant
            i <= words.len(),
            r@ == joined_words(texts(words@.subrange(0, i as int))),
        decreases words.len() - i,
    {
        let ghost before = texts(words@.subrange(0, i as int));
        if i == 0 {
            r = words[0].clone();
        } else {
            r = join2(r.as_str(), " ");
            r.append(words[i].as_str());
        }
        i = i + 1;
        proof {
            let now = texts(words@.subrange(0, i as int));
            assert(now.drop_last() =~= before);
            if i == 1 {
                assert(now =~= seq![words@[0]@]);
            }
        }
    }
    assert(words@.subrange(0, words.len() as int) =~= words@);
    r
}

/// The first vault registered becomes active; later ones leave the active
/// vault as it is.
pub open spec fn active_after_create(
    vaults_before: Map<Seq<char>, String>,
    active_before: Seq<char>,
    name: Seq<char>,
) -> Seq<char> {
    if vaults_before.len() == 0 {
        name
    } else {
        active_before
    }
}

impl Config {
    /// Each vault name and each alias is held at most once, and once any
    /// vault is registered the active name is one of them.
    pub open spec fn wf(&self) -> bool {
        &&& self.vaults.wf()
        &&& self.aliases.wf()
        &&& forall|k: Seq<char>| #[trigger] self.vaults@.contains_key(k) ==> self.vaults@.contains_key(
            self.current.active@,
        )
    }

    /// Whether the active name is registered once any vault is: what a
    /// configuration read from disk must satisfy.
    pub fn active_is_registered(&self) -> (r: bool)
        requires
            self.vaults.wf(),
        ensures
            r == (forall|k: Seq<char>| #[trigger] self.vaults@.contains_key(k) ==> self.vaults@.contains_key(
                self.current.active@,
            )),
    {
        if self.vaults.len() == 0 {
            assert forall|k: Seq<char>| !#[trigger] self.vaults@.contains_key(k) by {
                assert(!Map::<Seq<char>, String>::empty().contains_key(k));
            }
            return true;
        }
        let keys = self.vaults.keys();
        assert(self.vaults@.contains_key(keys@[0]@));
        self.vaults.contains_key(self.current.active.as_str())
    }

    /// The registered vaults: name to directory.
    pub open spec fn vault_dirs(&self) -> Map<Seq<char>, String> {
        self.vaults@
    }

    /// The configuration used when none is stored yet: no vaults, the
    /// default vault active, no provider, default sync settings.
    pub fn fresh() -> (r: Config)
        ensures
            r.wf(),
            r.vault_dirs() == Map::<Seq<char>, String>::empty(),
            r.aliases@ == Map::<Seq<char>, String>::empty(),
            r.current.active@ == default_vault_name(),
            r.ai.endpoint.is_none() && r.ai.api_key.is_none() && r.ai.model.is_none(),
            r.sync.conflict_strategy@ == "prompt"@,
            r.sync.default_branch@ == "main"@,
    {
        Config {
            vaults: Table::new(),
            current: CurrentConfig { active: "default".to_owned() },
            ai: AiConfig { endpoint: None, api_key: None, model: None },
            sync: SyncConfig::default(),
            aliases: Table::new(),
        }
    }

    /// The directory of the active vault.
    pub fn get_active_vault_dir(&self) -> (r: Result<String, VaultError>)
        requires
            self.wf(),
        ensures
            self.vault_dirs().contains_key(self.current.active@) ==> r == Ok::<String, VaultError>(
                self.vault_dirs()[self.current.active@],
            ),
            !self.vault_dirs().contains_key(self.current.active@) ==> r == Err::<String, VaultError>(
                VaultError::VaultNotFound(self.current.active),
            ),
    {
        match self.vaults.get(self.current.active.as_str()) {
            Some(dir) => Ok(dir.clone()),
            None => Err(VaultError::VaultNotFound(self.current.active.clone())),
        }
    }

    /// The directory of the vault called `name`.
    pub fn get_vault_dir(&self, name: &str) -> (r: Option<String>)
        requires
            self.wf(),
        ensures
            self.vault_dirs().contains_key(name@) ==> r == Some(self.vault_dirs()[name@]),
            !self.vault_dirs().contains_key(name@) ==> r.is_none(),
    {
        match self.vaults.get(name) {
            Some(dir) => Some(dir.clone()),
            None => None,
        }
    }

    /// Whether a vault called `name` is registered.
    pub fn has_vault(&self, name: &str) -> (r: bool)
        requires
            self.wf(),
        ensures
            r == self.vault_dirs().contains_key(name@),
    {
        self.vaults.contains_key(name)
    }

    /// Registers a vault set up by `init`: it becomes active where it is the
    /// only vault or where the active name is not registered.
    pub fn add_vault(&mut self, name: String, dir: String)
        requires
            old(self).wf(),
        ensures
            final(self).wf(),
            final(self).vault_dirs() == old(self).vault_dirs().insert(name@, dir),
            final(self).current.active@ == (if final(self).vault_dirs().len() == 1
                || !final(self).vault_dirs().contains_key(old(self).current.active@) {
                name@
            } else {
                old(self).current.active@
            }),
            final(self).aliases == old(self).aliases,
    {
        let name_copy = name.clone();
        self.vaults.insert(name, dir);
        if self.vaults.len() == 1 || !self.vaults.contains_key(self.current.active.as_str()) {
            self.current.active = name_copy;
        }
    }

    /// Registers a new vault called `name` at `dir`: refused where the name
    /// is taken. The first vault registered becomes active.
    pub fn create_vault(&mut self, name: String, dir: String) -> (r: Result<(), VaultError>)
        requires
            old(self).wf(),
        ensures
            final(self).wf(),
            final(self).aliases == old(self).aliases,
            old(self).vault_dirs().contains_key(name@) ==> r is Err && r->Err_0
                == VaultError::AlreadyExists(name) && final(self).vault_dirs() == old(self).vault_dirs() && final(self).current == old(self).current,
            !old(self).vault_dirs().contains_key(name@) ==> r is Ok && final(self).vault_dirs()
                == old(self).vault_dirs().insert(name@, dir) && final(self).current.active@
                == active_after_create(old(self).vault_dirs(), old(self).current.active@, name@),
    {
        if self.vaults.contains_key(name.as_str()) {
            return Err(VaultError::AlreadyExists(name));
        }
        let first = self.vaults.len() == 0;
        proof {
            if !first {
                if !self.vaults@.contains_key(self.current.active@) {
                    assert forall|k: Seq<char>| !#[trigger] self.vaults@.contains_key(k) by {}
                    assert(self.vaults@ =~= Map::<Seq<char>, String>::empty());
                }
            }
        }
        let name_copy = name.clone();
        self.vaults.insert(name, dir);
        if first {
            self.current.active = name_copy;
        }
        Ok(())
    }

    /// Makes the vault called `name` active: refused where it is not
    /// registered.
    pub fn switch_vault(&mut self, name: &str) -> (r: Result<(), VaultError>)
        requires
            old(self).wf(),
        ensures
            final(self).wf(),
            final(self).vaults == old(self).vaults,
            final(self).aliases == old(self).aliases,
            old(self).vault_dirs().contains_key(name@) ==> r is Ok && final(self).current.active@
                == name@,
            !old(self).vault_dirs().contains_key(name@) ==> r is Err && r->Err_0 is VaultNotFound
                && r->Err_0->VaultNotFound_0@ == name@ && final(self).current == old(self).current,
    {
        if !self.vaults.contains_key(name) {
            return Err(VaultError::VaultNotFound(name.to_owned()));
        }
        self.current.active = name.to_owned();
        Ok(())
    }

    /// Unregisters the vault called `name`, giving back its directory:
    /// refused where it is not registered or is the active vault.
    pub fn remove_vault(&mut self, name: &str) -> (r: Result<String, VaultError>)
        requires
            old(self).wf(),
        ensures
            final(self).wf(),
            old(self).vault_dirs().contains_key(old(self).current.active@) ==> final(self).vault_dirs().contains_key(final(self).current.active@),
            final(self).current == old(self).current,
            final(self).aliases == old(self).aliases,
            !old(self).vault_dirs().contains_key(name@) ==> r is Err && r->Err_0 is VaultNotFound
                && r->Err_0->VaultNotFound_0@ == name@ && final(self).vault_dirs() == old(self).vault_dirs(),
            old(self).vault_dirs().contains_key(name@) && old(self).current.active@ == name@
                ==> r is Err && r->Err_0 is ActiveVault && r->Err_0->ActiveVault_0@ == name@
                && final(self).vault_dirs() == old(self).vault_dirs(),
            old(self).vault_dirs().contains_key(name@) && old(self).current.active@ != name@
                ==> r == Ok::<String, VaultError>(old(self).vault_dirs()[name@]) && final(self).vault_dirs() == old(self).vault_dirs().remove(name@),
    {
        if !self.vaults.contains_key(name) {
            return Err(VaultError::VaultNotFound(name.to_owned()));
        }
        if same_text(self.current.active.as_str(), name) {
            return Err(VaultError::ActiveVault(name.to_owned()));
        }
        match self.vaults.remove(name) {
            Some(dir) => Ok(dir),
            None => Err(VaultError::VaultNotFound(name.to_owned())),
        }
    }

    /// The vault a command acts on: the one named, else the active one.
    pub fn target_vault(&self, name: Option<String>) -> (r: String)
        ensures
            r == (match name {
                Some(n) => n,
                None => self.current.active,
            }),
    {
        match name {
            Some(n) => n,
            None => self.current.active.clone(),
        }
    }

    /// The provider setting that `key` names.
    pub fn ai_value(&self, key: AiKey) -> (r: &Option<String>)
        ensures
            r == (match key {
                AiKey::Endpoint => &self.ai.endpoint,
                AiKey::ApiKey => &self.ai.api_key,
                AiKey::Model => &self.ai.model,
            }),
    {
        match key {
            AiKey::Endpoint => &self.ai.endpoint,
            AiKey::ApiKey => &self.ai.api_key,
            AiKey::Model => &self.ai.model,
        }
    }

    /// Sets (or, with `None`, unsets) the provider setting that `key` names;
    /// nothing else changes.
    pub fn set_ai_value(&mut self, key: AiKey, value: Option<String>)
        ensures
            final(self).vaults == old(self).vaults,
            final(self).aliases == old(self).aliases,
            final(self).current == old(self).current,
            final(self).ai == (match key {
                AiKey::Endpoint => AiConfig { endpoint: value, ..old(self).ai },
                AiKey::ApiKey => AiConfig { api_key: value, ..old(self).ai },
                AiKey::Model => AiConfig { model: value, ..old(self).ai },
            }),
    {
        match key {
            AiKey::Endpoint => self.ai.endpoint = value,
            AiKey::ApiKey => self.ai.api_key = value,
            AiKey::Model => self.ai.model = value,
        }
    }

    /// Defines the alias `name` for the command `words`: refused where the
    /// name is empty or one of the tool's commands, or the command is empty.
    pub fn add_alias(&mut self, name: String, words: &Vec<String>) -> (r: Result<(), VaultError>)
        requires
            old(self).wf(),
        ensures
            final(self).wf(),
            final(self).vaults == old(self).vaults,
            final(self).current == old(self).current,
            (name@.len() == 0 || reserved_command(name@) || words.len() == 0) ==> r is Err
                && r->Err_0 is InvalidAlias && r->Err_0->InvalidAlias_0@ == name@ && final(self).aliases@ == old(self).aliases@,
            !(name@.len() == 0 || reserved_command(name@) || words.len() == 0) ==> r is Ok
                && final(self).aliases@ == old(self).aliases@.insert(
                name@,
                final(self).aliases@[name@],
            ) && final(self).aliases@[name@]@ == joined_words(texts(words@)),
    {
        if name.unicode_len() == 0 || is_reserved_command(name.as_str()) || words.len() == 0 {
            return Err(VaultError::InvalidAlias(name));
        }
        let command = join_words(words);
        self.aliases.insert(name, command);
        Ok(())
    }

    /// Removes the alias `name`, giving back its command: refused where it
    /// is not defined.
    pub fn remove_alias(&mut self, name: &str) -> (r: Result<String, VaultError>)
        requires
            old(self).wf(),
        ensures
            final(self).wf(),
            final(self).vaults == old(self).vaults,
            final(self).current == old(self).current,
            final(self).aliases@ == old(self).aliases@.remove(name@),
            old(self).aliases@.contains_key(name@) ==> r == Ok::<String, VaultError>(
                old(self).aliases@[name@],
            ),
            !old(self).aliases@.contains_key(name@) ==> r is Err && r->Err_0 is InvalidAlias
                && r->Err_0->InvalidAlias_0@ == name@,
    {
        match self.aliases.remove(name) {
            Some(c) => Ok(c),
            None => Err(VaultError::InvalidAlias(name.to_owned())),
        }
    }
}

/// Locates the directory of the vault called `name`. Where no vault is
/// registered at all, the default vault lives at `<home>/.gfv/default`.
pub fn get_vault_dir(config: &Config, name: &str, home: Option<String>) -> (r: Result<String, VaultError>)
    requires
        config.wf(),
    ensures
        config.vault_dirs().contains_key(name@) ==> r == Ok::<String, VaultError>(
            config.vault_dirs()[name@],
        ),
        !config.vault_dirs().contains_key(name@) && name@ == default_vault_name()
            && config.vault_dirs().len() == 0 ==> match home {
            Some(h) => r is Ok && r->Ok_0@ == h@ + "/.gfv/default"@,
            None => r == Err::<String, VaultError>(VaultError::NoHomeDirectory),
        },
        !config.vault_dirs().contains_key(name@) && !(name@ == default_vault_name()
            && config.vault_dirs().len() == 0) ==> r is Err && r->Err_0 is VaultNotFound
            && r->Err_0->VaultNotFound_0@ == name@,
{
    if let Some(dir) = config.vaults.get(name) {
        return Ok(dir.clone());
    }
    if same_text(name, "default") && config.vaults.len() == 0 {
        return match home {
            Some(h) => Ok(join2(h.as_str(), "/.gfv/default")),
            None => Err(VaultError::NoHomeDirectory),
        };
    }
    Err(VaultError::VaultNotFound(name.to_owned()))
}

/// The name of the vault that commands act on by default: the active one,
/// or `default` where no configuration could be read or it registers no
/// vault.
pub fn get_active_vault_name(config: Option<&Config>) -> (r: String)
    requires
        config matches Some(c) ==> c.wf(),
    ensures
        match config {
            Some(c) => if c.vault_dirs().len() == 0 {
                r@ == default_vault_name()
            } else {
                r == c.current.active
            },
            None => r@ == default_vault_name(),
        },
{
    match config {
        Some(c) => {
            if c.vaults.len() == 0 {
                "default".to_owned()
            } else {
                c.current.active.clone()
            }
        },
        None => "default".to_owned(),
    }
}

/// What `str::split_whitespace` gives for a text: its words.
pub uninterp spec fn words_of(s: Seq<char>) -> Seq<Seq<char>>;

/// Relies on `str::split_whitespace`, whose words depend on the text alone.
#[verifier::external_body]
fn split_words(s: &str) -> (r: Vec<String>)
    ensures
        texts(r@) == words_of(s@),
{
    s.split_whitespace().map(|w| w.to_string()).collect()
}

/// The command line after alias expansion: where the command (the second
/// argument) is an alias, it is replaced by the words of its expansion.
pub open spec fn expanded_args(args: Seq<Seq<char>>, aliases: Map<Seq<char>, String>) -> Seq<Seq<char>> {
    if args.len() >= 2 && aliases.contains_key(args[1]) {
        seq![args[0]] + words_of(aliases[args[1]]@) + args.subrange(2, args.len() as int)
    } else {
        args
    }
}

/// Expands an alias given as the command of `args`.
pub fn resolve_aliases(config: &Config, args: Vec<String>) -> (r: Vec<String>)
    requires
        config.wf(),
    ensures
        texts(r@) == expanded_args(texts(args@), config.aliases@),
{
    if args.len() < 2 {
        return args;
    }
    let expansion = match config.aliases.get(args[1].as_str()) {
        Some(e) => e,
        None => return args,
    };
    let words = split_words(expansion.as_str());
    let mut r: Vec<String> = Vec::new();
    r.push(args[0].clone());
    let mut i: usize = 0;
    while i < words.len()
        invariant
            args.len() >= 2,
            i <= words.len(),
            texts(r@) == seq![args@[0]@] + texts(words@).subrange(0, i as int),
        decreases words.len() - i,
    {
        let ghost before = texts(r@);
        r.push(words[i].clone());
        assert(texts(r@) =~= before.push(words@[i as int]@));
        i = i + 1;
        assert(texts(r@) =~= seq![args@[0]@] + texts(words@).subrange(0, i as int));
    }
    let mut k: usize = 2;
    while k < args.len()
        invariant
            args.len() >= 2,
            2 <= k <= args.len(),
            texts(r@) == seq![args@[0]@] + texts(words@) + texts(args@).subrange(2, k as int),
        decreases args.len() - k,
    {
        let ghost before = texts(r@);
        r.push(args[k].clone());
        assert(texts(r@) =~= before.push(args@[k as int]@));
        k = k + 1;
        assert(texts(r@) =~= seq![args@[0]@] + texts(words@) + texts(args@).subrange(2, k as int));
    }
    proof {
        assert(texts(words@).subrange(0, words.len() as int) =~= texts(words@));
        assert(texts(args@)[1] == args@[1]@);
    }
    r
}

} // verus!
