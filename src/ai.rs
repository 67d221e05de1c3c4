//! The optional commit-message provider: its settings, and the prompt it is
//! sent. Sending it and reading the answer happen outside the library.
use vstd::prelude::*;

use crate::error::VaultError;
use crate::text::{chars_of, join3, slice};

verus! {

/// At most this many characters of a diff go into a prompt.
pub const MAX_DIFF_CHARS: usize = 4000;

/// A character with the Unicode `White_Space` property, the white space
/// that `str::trim` removes.
pub open spec fn white_space(c: char) -> bool {
    ('\u{9}' <= c && c <= '\u{d}') || c == ' ' || c == '\u{85}' || c == '\u{a0}' || c
        == '\u{1680}' || ('\u{2000}' <= c && c <= '\u{200a}') || c == '\u{2028}' || c
        == '\u{2029}' || c == '\u{202f}' || c == '\u{205f}' || c == '\u{3000}'
}

/// The text holds nothing but white space.
pub open spec fn blank(s: Seq<char>) -> bool {
    forall|i: int| 0 <= i < s.len() ==> white_space(#[trigger] s[i])
}

/// Whether `c` is white space.
pub fn is_white_space(c: char) -> (r: bool)
    ensures
        r == white_space(c),
{
    ('\u{9}' <= c && c <= '\u{d}') || c == ' ' || c == '\u{85}' || c == '\u{a0}' || c
        == '\u{1680}' || ('\u{2000}' <= c && c <= '\u{200a}') || c == '\u{2028}' || c
        == '\u{2029}' || c == '\u{202f}' || c == '\u{205f}' || c == '\u{3000}'
}

/// Whether the text holds nothing but white space.
pub fn is_blank(s: &str) -> (r: bool)
    ensures
        r == blank(s@),
{
    let chars = chars_of(s);
    let mut i: usize = 0;
    while i < chars.len()
        invariant
            chars@ == s@,
            i <= chars.len(),
            forall|j: int| 0 <= j < i ==> white_space(#[trigger] s@[j]),
        decreases chars.len() - i,
    {
        if !is_white_space(chars[i]) {
            return false;
        }
        i = i + 1;
    }
    true
}

/// The text of the prompt before the diff.
pub const PROMPT_HEAD: &'static str = "You are a helpful assistant that generates concise git commit messages based on code changes.\n\nGenerate a commit message for the following git diff. The message should:\n- Be concise (1-2 lines maximum)\n- Start with a verb in present tense (e.g., 'add', 'fix', 'update', 'remove')\n- Describe WHAT changed, not HOW it changed\n- Not include any prefixes like 'feat:', 'fix:', etc.\n- Not include markdown formatting\n\nGit diff:\n```\n";

/// The text of the prompt after the diff.
pub const PROMPT_TAIL: &'static str = "\n```\n\nRespond with ONLY the commit message, nothing else.";

/// The part of a diff that a prompt carries: its first characters, at most
/// `MAX_DIFF_CHARS` of them.
pub open spec fn truncated_diff(diff: Seq<char>) -> Seq<char> {
    if diff.len() > MAX_DIFF_CHARS {
        diff.subrange(0, MAX_DIFF_CHARS as int)
    } else {
        diff
    }
}

/// The prompt for a diff.
pub open spec fn prompt_of(diff: Seq<char>) -> Seq<char> {
    PROMPT_HEAD@ + truncated_diff(diff) + PROMPT_TAIL@
}

/// The settings of a chat-completion endpoint.
pub struct AiClient {
    endpoint: String,
    api_key: String,
    model: String,
}

impl AiClient {
    pub fn new(endpoint: String, api_key: String, model: String) -> (r: AiClient)
        ensures
            r.endpoint_spec() == endpoint,
            r.api_key_spec() == api_key,
            r.model_spec() == model,
    {
        AiClient { endpoint, api_key, model }
    }

    pub closed spec fn endpoint_spec(&self) -> String {
        self.endpoint
    }

    pub closed spec fn api_key_spec(&self) -> String {
        self.api_key
    }

    pub closed spec fn model_spec(&self) -> String {
        self.model
    }

    /// The URL requests go to.
    pub fn endpoint(&self) -> (r: &String)
        ensures
            *r == self.endpoint_spec(),
    {
        &self.endpoint
    }

    /// The bearer token requests carry.
    pub fn api_key(&self) -> (r: &String)
        ensures
            *r == self.api_key_spec(),
    {
        &self.api_key
    }

    /// The model asked for.
    pub fn model(&self) -> (r: &String)
        ensures
            *r == self.model_spec(),
    {
        &self.model
    }

    /// The prompt that asks for a commit message describing `diff`; refused
    /// where the diff is blank.
    pub fn commit_prompt(&self, diff: &str) -> (r: Result<String, VaultError>)
        ensures
            blank(diff@) ==> r == Err::<String, VaultError>(VaultError::EmptyDiff),
            !blank(diff@) ==> r is Ok && r->Ok_0@ == prompt_of(diff@),
    {
        if is_blank(diff) {
            return Err(VaultError::EmptyDiff);
        }
        let n = diff.unicode_len();
        let cut = if n > MAX_DIFF_CHARS {
            MAX_DIFF_CHARS
        } else {
            n
        };
        let part = slice(diff, 0, cut);
        proof {
            if n <= MAX_DIFF_CHARS {
                assert(diff@.subrange(0, n as int) =~= diff@);
            }
        }
        Ok(join3(PROMPT_HEAD, part.as_str(), PROMPT_TAIL))
    }
}

} // verus!
