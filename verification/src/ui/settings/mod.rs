//! Runtime configuration of the desktop app: theme, default provider and
//! model, API keys, thinking budget and tool policy.

pub mod persistence;

use vstd::prelude::*;
use vstd::string::*;

use crate::text::str_eq;

verus! {

/// Colour theme.
#[derive(Debug, Clone, Copy, PartialEq, Eq, Structural)]
pub enum ThemeMode {
    Light,
    Dark,
    System,
}

/// The texts of a list of strings.
pub open spec fn texts(v: Seq<String>) -> Seq<Seq<char>> {
    v.map_values(|s: String| s@)
}

/// Whether `list` holds `name`.
pub fn list_contains(list: &Vec<String>, name: &str) -> (r: bool)
    ensures
        r == texts(list@).contains(name@),
{
    let n = list.len();
    let mut i: usize = 0;
    while i < n
        invariant
            n == list@.len(),
            i <= n,
            forall|j: int| 0 <= j < i ==> list@[j]@ != name@,
        decreases n - i,
    {
        if str_eq(list[i].as_str(), name) {
            assert(texts(list@)[i as int] == name@);
            return true;
        }
        i = i + 1;
    }
    proof {
        if texts(list@).contains(name@) {
            let k = choose|k: int| 0 <= k < texts(list@).len() && texts(list@)[k] == name@;
            assert(list@[k]@ == name@);
        }
    }
    false
}

/// Which tools are disabled and which need the user's confirmation
/// (each a set of tool names; empty = none).
#[derive(Debug, Clone)]
pub struct ToolPolicy {
    pub disabled: Vec<String>,
    pub require_confirmation: Vec<String>,
}

impl ToolPolicy {
    /// Whether tool `name` must be confirmed by the user before it runs.
    pub fn requires_confirmation(&self, name: &str) -> (r: bool)
        ensures
            r == texts(self.require_confirmation@).contains(name@),
    {
        list_contains(&self.require_confirmation, name)
    }

    /// Whether tool `name` may run at all.
    pub fn is_enabled(&self, name: &str) -> (r: bool)
        ensures
            r == !texts(self.disabled@).contains(name@),
    {
        !list_contains(&self.disabled, name)
    }
}

/// The tools that need confirmation by default.
pub open spec fn default_confirmation_tools() -> Seq<Seq<char>> {
    seq!["bash"@, "powershell"@, "file_write"@, "file_edit"@, "apply_patch"@]
}

/// Runtime configuration of the desktop app.
#[derive(Debug, Clone)]
pub struct Settings {
    pub theme: ThemeMode,
    pub default_provider: String,
    pub default_model: String,
    pub anthropic_api_key: Option<String>,
    pub openai_api_key: Option<String>,
    pub thinking_budget_tokens: u32,
    pub tool_policy: ToolPolicy,
}

impl Settings {
    /// The default settings, with the API keys found in the environment
    /// (`ANTHROPIC_API_KEY`, `OPENAI_API_KEY`) and the default model the
    /// caller gives: system theme, Anthropic, an 8000-token thinking budget,
    /// no tool disabled and the shell and file-writing tools behind
    /// confirmation.
    pub fn defaults_with_keys(
        anthropic_api_key: Option<String>,
        openai_api_key: Option<String>,
        default_model: String,
    ) -> (r: Settings)
        ensures
            r.theme == ThemeMode::System,
            r.default_provider@ == "anthropic"@,
            r.default_model == default_model,
            r.anthropic_api_key == anthropic_api_key,
            r.openai_api_key == openai_api_key,
            r.thinking_budget_tokens == 8000,
            r.tool_policy.disabled@.len() == 0,
            texts(r.tool_policy.require_confirmation@) == default_confirmation_tools(),
    {
        let require_confirmation = vec![
            String::from_str("bash"),
            String::from_str("powershell"),
            String::from_str("file_write"),
            String::from_str("file_edit"),
            String::from_str("apply_patch"),
        ];
        assert(texts(require_confirmation@) =~= default_confirmation_tools());
        Settings {
            theme: ThemeMode::System,
            default_provider: String::from_str("anthropic"),
            default_model,
            anthropic_api_key,
            openai_api_key,
            thinking_budget_tokens: 8000,
            tool_policy: ToolPolicy { disabled: Vec::new(), require_confirmation },
        }
    }
}

} // verus!
