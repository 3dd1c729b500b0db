//! Merging a partially written settings file over the defaults: keys present
//! in the file override, keys absent keep their default.

use vstd::prelude::*;
use vstd::string::*;

use crate::text::{ascii_lower_spec, eq_ascii_lower};
use crate::ui::settings::{Settings, ThemeMode, ToolPolicy};

verus! {

/// What `Path::join` gives for a directory and the name `settings.json`.
pub uninterp spec fn settings_file_of(data_dir: &std::path::Path) -> std::path::PathBuf;

/// `Path::join`: the settings file `settings.json` inside the data
/// directory.
#[verifier::external_body]
pub fn settings_path(data_dir: &std::path::Path) -> (r: std::path::PathBuf)
    ensures
        r == settings_file_of(data_dir),
{
    data_dir.join("settings.json")
}

/// The fields a settings file may hold, each optional.
#[derive(Debug, Clone)]
pub struct PartialSettings {
    pub default_provider: Option<String>,
    pub default_model: Option<String>,
    pub anthropic_api_key: Option<String>,
    pub openai_api_key: Option<String>,
    pub theme: Option<String>,
    pub thinking_budget_tokens: Option<u32>,
    pub tool_policy: Option<ToolPolicy>,
}

/// The theme a stored name selects (ASCII case ignored; unknown → System).
pub open spec fn theme_from_name(name: Seq<char>) -> ThemeMode {
    if ascii_lower_spec(name) == "light"@ {
        ThemeMode::Light
    } else if ascii_lower_spec(name) == "dark"@ {
        ThemeMode::Dark
    } else {
        ThemeMode::System
    }
}

/// Parse a stored theme name.
pub fn parse_theme(name: &str) -> (r: ThemeMode)
    ensures
        r == theme_from_name(name@),
        ascii_lower_spec(name@) == "light"@ ==> r == ThemeMode::Light,
        ascii_lower_spec(name@) == "dark"@ ==> r == ThemeMode::Dark,
{
    proof {
        reveal_strlit("light");
        reveal_strlit("dark");
        assert("dark"@.len() != "light"@.len());
    }
    if eq_ascii_lower(name, "light") {
        ThemeMode::Light
    } else if eq_ascii_lower(name, "dark") {
        ThemeMode::Dark
    } else {
        ThemeMode::System
    }
}

/// `Some(v)` gives `v`, `None` keeps `d`.
pub open spec fn or_keep<T>(o: Option<T>, d: T) -> T {
    match o {
        Some(v) => v,
        None => d,
    }
}

impl PartialSettings {
    /// Overlay the present fields onto `base`.
    pub fn merge_with(self, base: Settings) -> (r: Settings)
        ensures
            r.default_provider == or_keep(self.default_provider, base.default_provider),
            r.default_model == or_keep(self.default_model, base.default_model),
            r.anthropic_api_key == (match self.anthropic_api_key {
                Some(v) => Some(v),
                None => base.anthropic_api_key,
            }),
            r.openai_api_key == (match self.openai_api_key {
                Some(v) => Some(v),
                None => base.openai_api_key,
            }),
            r.theme == (match self.theme {
                Some(t) => theme_from_name(t@),
                None => base.theme,
            }),
            self.theme matches Some(t) && ascii_lower_spec(t@) == "light"@ ==> r.theme
                == ThemeMode::Light,
            self.theme matches Some(t) && ascii_lower_spec(t@) == "dark"@ ==> r.theme
                == ThemeMode::Dark,
            r.thinking_budget_tokens == or_keep(
                self.thinking_budget_tokens,
                base.thinking_budget_tokens,
            ),
            r.tool_policy == or_keep(self.tool_policy, base.tool_policy),
    {
        let mut base = base;
        if let Some(v) = self.default_provider {
            base.default_provider = v;
        }
        if let Some(v) = self.default_model {
            base.default_model = v;
        }
        if let Some(v) = self.anthropic_api_key {
            base.anthropic_api_key = Some(v);
        }
        if let Some(v) = self.openai_api_key {
            base.openai_api_key = Some(v);
        }
        if let Some(v) = self.theme {
            base.theme = parse_theme(v.as_str());
        }
        if let Some(v) = self.thinking_budget_tokens {
            base.thinking_budget_tokens = v;
        }
        if let Some(v) = self.tool_policy {
            base.tool_policy = v;
        }
        base
    }
}

/// The lower-case name under which a theme is written.
pub open spec fn theme_name(m: ThemeMode) -> Seq<char> {
    match m {
        ThemeMode::Light => "light"@,
        ThemeMode::Dark => "dark"@,
        ThemeMode::System => "system"@,
    }
}

/// A stored theme name reads back as the theme it names: the lower-case name
/// of `Light` or `Dark`, in any ASCII case, selects that theme, and only a name
/// that is neither selects `System`.
pub proof fn law_theme_name_round_trip(m: ThemeMode, name: Seq<char>)
    ensures
        m != ThemeMode::System ==> theme_from_name(theme_name(m)) == m,
        m != ThemeMode::System && ascii_lower_spec(name) == theme_name(m) ==> theme_from_name(name)
            == m,
        theme_from_name(name) == ThemeMode::System <==> (ascii_lower_spec(name) != "light"@
            && ascii_lower_spec(name) != "dark"@),
{
    reveal_strlit("light");
    reveal_strlit("dark");
    reveal_strlit("system");
    assert(ascii_lower_spec("light"@) =~= "light"@);
    assert(ascii_lower_spec("dark"@) =~= "dark"@);
}

/// Merging an empty file keeps every default, and merging is the identity
/// on the fields the file leaves out.
pub proof fn law_empty_partial_keeps_defaults(base: Settings)
    ensures
        ({
            let p = PartialSettings {
                default_provider: None,
                default_model: None,
                anthropic_api_key: None,
                openai_api_key: None,
                theme: None,
                thinking_budget_tokens: None,
                tool_policy: None,
            };
            &&& or_keep(p.default_provider, base.default_provider) == base.default_provider
            &&& or_keep(p.default_model, base.default_model) == base.default_model
            &&& or_keep(p.thinking_budget_tokens, base.thinking_budget_tokens)
                == base.thinking_budget_tokens
            &&& or_keep(p.tool_policy, base.tool_policy) == base.tool_policy
        }),
{
}

} // verus!
