//! Settings of the chat panel: provider, API key, base URL, model and working
//! directory.

use vstd::prelude::*;
use vstd::string::*;

use crate::api::providers::ANTHROPIC_API_BASE;
use crate::text::{is_blank, is_blank_spec};

verus! {

/// Persisted chat-panel settings.
#[derive(Debug, Clone)]
pub struct Settings {
    /// Provider id, e.g. `anthropic`, `openai`, `deepseek`, `ollama`.
    pub provider: String,
    /// API key (stored in plain text).
    pub api_key: String,
    /// API base URL; blank means the library default.
    pub base_url: String,
    /// Model identifier.
    pub model: String,
    /// Working directory for agent file operations and shell tools.
    pub working_dir: std::path::PathBuf,
}

/// The provider used when the settings file names none.
pub fn default_provider() -> (r: String)
    ensures
        r@ == "anthropic"@,
{
    String::from_str("anthropic")
}

impl Settings {
    /// The base URL to use: the library default when the field is blank.
    pub fn effective_base_url(&self) -> (r: String)
        ensures
            r@ == (if is_blank_spec(self.base_url@) {
                ANTHROPIC_API_BASE@
            } else {
                self.base_url@
            }),
    {
        if is_blank(self.base_url.as_str()) {
            String::from_str(ANTHROPIC_API_BASE)
        } else {
            self.base_url.clone()
        }
    }

    /// Whether an API key is configured (not blank).
    pub fn has_api_key(&self) -> (r: bool)
        ensures
            r == !is_blank_spec(self.api_key@),
    {
        !is_blank(self.api_key.as_str())
    }
}

/// `dirs::home_dir`: the user's home directory, when it can be found.
/// Nothing is stated of it (it depends on the environment).
#[verifier::external_body]
fn home_dir() -> (r: Option<std::path::PathBuf>) {
    dirs::home_dir()
}

/// The working directory for a home directory that may not have been
/// found: the home directory, else `.`.
pub fn working_dir_or_current(home: Option<std::path::PathBuf>) -> (r: std::path::PathBuf)
    ensures
        r == match home {
            Some(h) => h,
            None => crate::json::path_of_text("."@),
        },
{
    match home {
        Some(h) => h,
        None => crate::json::path_from("."),
    }
}

/// The working directory used when the settings file names none: the home
/// directory, else `.` (see `working_dir_or_current`); which one depends on
/// the environment.
pub fn default_working_dir() -> (r: std::path::PathBuf) {
    working_dir_or_current(home_dir())
}

impl Settings {
    /// The settings used before any are saved: Anthropic, no key, the
    /// default base URL (blank), the given model and working directory.
    pub fn defaults(model: String, working_dir: std::path::PathBuf) -> (r: Settings)
        ensures
            r.provider@ == "anthropic"@,
            r.api_key@.len() == 0,
            r.base_url@.len() == 0,
            r.model == model,
            r.working_dir == working_dir,
    {
        Settings { provider: default_provider(), api_key: String::new(), base_url: String::new(), model, working_dir }
    }

    /// Loaded settings with the `ANTHROPIC_API_KEY` value `env_key` used
    /// when their own key is blank.
    pub fn with_env_key(self, env_key: Option<String>) -> (r: Settings)
        ensures
            (is_blank_spec(self.api_key@) && env_key is Some) ==> r.api_key == env_key->0,
            !(is_blank_spec(self.api_key@) && env_key is Some) ==> r.api_key == self.api_key,
            r.provider == self.provider,
            r.base_url == self.base_url,
            r.model == self.model,
            r.working_dir == self.working_dir,
    {
        let mut s = self;
        if is_blank(s.api_key.as_str()) {
            if let Some(k) = env_key {
                s.api_key = k;
            }
        }
        s
    }
}

} // verus!
