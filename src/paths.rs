//! Source paths: resolving what the user typed, naming a tracked path inside
//! the vault, and flagging files that may hold secrets.
//!
//! Paths are `/`-separated text without repeated or trailing separators; a
//! home directory is given without a trailing separator.
use vstd::prelude::*;

use crate::error::VaultError;
use crate::text::{
    chars_of, contains, ends_with, has_infix, has_prefix, has_suffix, join2, join3, same_text,
    slice, starts_with,
};

verus! {

/// Where the last component of `s` begins: just after its last `/`.
pub open spec fn name_start(s: Seq<char>) -> int
    decreases s.len(),
{
    if s.len() == 0 {
        0
    } else if s.last() == '/' {
        s.len() as int
    } else {
        name_start(s.drop_last())
    }
}

/// The last component of `s`.
pub open spec fn file_name(s: Seq<char>) -> Seq<char> {
    s.subrange(name_start(s), s.len() as int)
}

/// `s` names an entry directly inside the directory `dir`.
pub open spec fn directly_in(s: Seq<char>, dir: Seq<char>) -> bool {
    name_start(s) >= 1 && s.subrange(0, name_start(s) - 1) == dir
}

/// The vault-relative name for a dotfile kept directly in the home
/// directory, given its name without the leading dot.
pub open spec fn dotfile_vault_path(stripped: Seq<char>, name: Seq<char>) -> Seq<char> {
    if has_suffix(stripped, "rc"@) {
        stripped.subrange(0, stripped.len() - 2) + "/"@ + stripped
    } else if stripped == "gitconfig"@ {
        "git/gitconfig"@
    } else if has_prefix(stripped, "ssh/"@) || name == ".ssh"@ {
        "ssh/"@ + stripped
    } else {
        stripped + "/"@ + stripped
    }
}

/// The vault-relative path inferred for the absolute path `src` of a user
/// whose home directory is `home`; `None` where `src` has no file name.
/// The rules are tried in order: a path under `~/.config/` keeps what
/// follows that prefix; a dotfile directly in the home directory is renamed
/// by `dotfile_vault_path`; the editor's user settings file becomes
/// `vscode/settings.json`; a path under the home directory keeps what
/// follows it; anything else keeps its file name.
pub open spec fn inferred_vault_path(src: Seq<char>, home: Seq<char>) -> Option<Seq<char>> {
    let name = file_name(src);
    let config = home + "/.config/"@;
    let under_home = home + "/"@;
    if name.len() == 0 {
        None
    } else if has_prefix(src, config) && src.len() > config.len() {
        Some(src.subrange(config.len() as int, src.len() as int))
    } else if directly_in(src, home) && name[0] == '.' {
        Some(dotfile_vault_path(name.subrange(1, name.len() as int), name))
    } else if has_infix(src, "Code/User/settings.json"@) {
        Some("vscode/settings.json"@)
    } else if has_prefix(src, under_home) && src.len() > under_home.len() {
        Some(src.subrange(under_home.len() as int, src.len() as int))
    } else {
        Some(name)
    }
}

/// `r` is what inferring a vault path for `src` under `home` reports.
pub open spec fn inference_outcome(
    r: Result<String, VaultError>,
    src: Seq<char>,
    home: Seq<char>,
) -> bool {
    match inferred_vault_path(src, home) {
        Some(p) => r is Ok && r->Ok_0@ == p,
        None => r is Err && r->Err_0 is InvalidFileName && r->Err_0->InvalidFileName_0@ == src,
    }
}

/// The absolute path for what the user typed: a leading `~` stands for the
/// home directory, and a relative path is taken from `cwd`.
pub open spec fn resolved_source(typed: Seq<char>, home: Seq<char>, cwd: Seq<char>) -> Seq<char> {
    if typed == "~"@ {
        home
    } else if has_prefix(typed, "~/"@) {
        home + typed.subrange(1, typed.len() as int)
    } else if has_prefix(typed, "/"@) {
        typed
    } else {
        cwd + "/"@ + typed
    }
}

/// Lower-cased text that looks like it names a secret.
pub open spec fn looks_sensitive(lowered: Seq<char>) -> bool {
    has_infix(lowered, ".env"@) || has_infix(lowered, "credential"@) || has_infix(
        lowered,
        "secret"@,
    ) || has_suffix(lowered, ".key"@) || has_suffix(lowered, ".pem"@) || has_infix(
        lowered,
        "password"@,
    )
}

/// What `str::to_lowercase` gives for a text.
pub uninterp spec fn lower_of(s: Seq<char>) -> Seq<char>;

/// Relies on `str::to_lowercase`, whose result depends on the characters
/// alone.
#[verifier::external_body]
fn lowercase(s: &str) -> (r: String)
    ensures
        r@ == lower_of(s@),
{
    s.to_lowercase()
}

/// Relies on `dirs::home_dir` for the user's home directory; `None` where it
/// gives none or one that is not valid text.
#[verifier::external_body]
pub(crate) fn home_dir() -> (r: Option<String>) {
    dirs::home_dir().and_then(|p| p.to_str().map(|s| s.to_string()))
}

proof fn lemma_name_start_bounds(s: Seq<char>)
    ensures
        0 <= name_start(s) <= s.len(),
        name_start(s) >= 1 ==> s[name_start(s) - 1] == '/',
        forall|j: int| name_start(s) <= j < s.len() ==> s[j] != '/',
    decreases s.len(),
{
    if s.len() > 0 && s.last() != '/' {
        let t = s.drop_last();
        lemma_name_start_bounds(t);
        assert forall|j: int| name_start(s) <= j < s.len() implies s[j] != '/' by {
            if j < t.len() {
                assert(t[j] == s[j]);
            }
        }
    }
}

/// Where the last component of `s` begins.
fn find_name_start(s: &Vec<char>) -> (r: usize)
    ensures
        r as int == name_start(s@),
{
    let mut i: usize = s.len();
    assert(s@.subrange(0, i as int) =~= s@);
    while i > 0 && s[i - 1] != '/'
        invariant
            i <= s.len(),
            name_start(s@) == name_start(s@.subrange(0, i as int)),
        decreases i,
    {
        assert(s@.subrange(0, i as int).drop_last() =~= s@.subrange(0, i - 1));
        i = i - 1;
    }
    proof {
        if i > 0 {
            assert(s@.subrange(0, i as int).last() == '/');
        }
        assert(s@.subrange(0, i as int).len() == i);
    }
    i
}

/// The vault-relative name of a dotfile kept directly in the home directory;
/// `name` is the file name, dot included.
pub fn dotfile_vault_name(name: &str) -> (r: String)
    requires
        name@.len() >= 1,
    ensures
        r@ == dotfile_vault_path(name@.subrange(1, name@.len() as int), name@),
{
    let n = name.unicode_len();
    let stripped = slice(name, 1, n);
    let m = stripped.unicode_len();
    proof {
        reveal_strlit("rc");
    }
    if ends_with(stripped.as_str(), "rc") {
        let base = slice(stripped.as_str(), 0, m - 2);
        join3(base.as_str(), "/", stripped.as_str())
    } else if same_text(stripped.as_str(), "gitconfig") {
        "git/gitconfig".to_owned()
    } else if starts_with(stripped.as_str(), "ssh/") || same_text(name, ".ssh") {
        join2("ssh/", stripped.as_str())
    } else {
        join3(stripped.as_str(), "/", stripped.as_str())
    }
}

/// The vault-relative path for the absolute path `source`, for a user whose
/// home directory is `home`.
pub fn infer_vault_path(source: &str, home: &str) -> (r: Result<String, VaultError>)
    ensures
        inference_outcome(r, source@, home@),
{
    let chars = chars_of(source);
    let n = chars.len();
    let start = find_name_start(&chars);
    proof {
        lemma_name_start_bounds(source@);
    }
    let name = slice(source, start, n);
    if start == n {
        return Err(VaultError::InvalidFileName(source.to_owned()));
    }
    let config = join2(home, "/.config/");
    let cn = config.unicode_len();
    if starts_with(source, config.as_str()) && n > cn {
        return Ok(slice(source, cn, n));
    }
    let hn = home.unicode_len();
    let in_home = start >= 1 && start - 1 == hn && starts_with(source, home);
    proof {
        if start >= 1 && start - 1 == hn {
            assert(has_prefix(source@, home@) == (source@.subrange(0, start - 1) == home@));
        }
    }
    if in_home && name.as_str().get_char(0) == '.' {
        return Ok(dotfile_vault_name(name.as_str()));
    }
    if contains(source, "Code/User/settings.json") {
        return Ok("vscode/settings.json".to_owned());
    }
    let under_home = join2(home, "/");
    let un = under_home.unicode_len();
    if starts_with(source, under_home.as_str()) && n > un {
        return Ok(slice(source, un, n));
    }
    Ok(name)
}

/// The vault-relative path for `source`, taking the home directory from the
/// environment.
pub fn infer_vault_path_for_user(source: &str) -> (r: Result<String, VaultError>)
    ensures
        r == Err::<String, VaultError>(VaultError::NoHomeDirectory) || exists|home: Seq<char>|
            #[trigger] inference_outcome(r, source@, home),
{
    match home_dir() {
        Some(home) => infer_vault_path(source, home.as_str()),
        None => Err(VaultError::NoHomeDirectory),
    }
}

/// The absolute path for what the user typed, for a user whose home
/// directory is `home`, working in `cwd`.
pub fn resolve_source(typed: &str, home: &str, cwd: &str) -> (r: String)
    ensures
        r@ == resolved_source(typed@, home@, cwd@),
{
    if same_text(typed, "~") {
        home.to_owned()
    } else if starts_with(typed, "~/") {
        proof {
            reveal_strlit("~/");
        }
        let n = typed.unicode_len();
        let rest = slice(typed, 1, n);
        join2(home, rest.as_str())
    } else if starts_with(typed, "/") {
        typed.to_owned()
    } else {
        join3(cwd, "/", typed)
    }
}

/// Whether lower-cased path text looks like it names a secret.
pub fn is_sensitive_text(lowered: &str) -> (r: bool)
    ensures
        r == looks_sensitive(lowered@),
{
    contains(lowered, ".env") || contains(lowered, "credential") || contains(lowered, "secret")
        || ends_with(lowered, ".key") || ends_with(lowered, ".pem") || contains(
        lowered,
        "password",
    )
}

/// Whether the path may hold secrets or credentials, by its lower-cased text.
pub fn is_sensitive_file(path: &str) -> (r: bool)
    ensures
        r == looks_sensitive(lower_of(path@)),
{
    let lowered = lowercase(path);
    is_sensitive_text(lowered.as_str())
}

} // verus!
