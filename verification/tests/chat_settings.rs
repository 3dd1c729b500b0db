use local_workflow_agent::ui::chat_settings::{default_provider, Settings};
use local_workflow_agent::ui::settings::persistence::PartialSettings;
use local_workflow_agent::ui::settings::{Settings as AppSettings, ThemeMode, ToolPolicy};

#[test]
fn empty_base_url_falls_back_to_default() {
    let s = Settings {
        provider: default_provider(),
        api_key: "".into(),
        base_url: "".into(),
        model: "".into(),
        working_dir: std::path::PathBuf::from("."),
    };
    assert_eq!(s.effective_base_url(), "https://api.anthropic.com");
}

#[test]
fn blank_key_and_custom_base() {
    let s = Settings {
        provider: "openai".into(),
        api_key: " \t".into(),
        base_url: "https://custom.example.com".into(),
        model: "m".into(),
        working_dir: std::path::PathBuf::from("/tmp/work"),
    };
    assert!(!s.has_api_key());
    assert_eq!(s.effective_base_url(), "https://custom.example.com");
    let s = Settings { api_key: "sk".into(), ..s };
    assert!(s.has_api_key());
}

fn defaults() -> AppSettings {
    AppSettings::defaults_with_keys(None, Some("sk-openai".into()), "model-c".into())
}

#[test]
fn empty_partial_keeps_every_default() {
    let p = PartialSettings {
        default_provider: None,
        default_model: None,
        anthropic_api_key: None,
        openai_api_key: None,
        theme: None,
        thinking_budget_tokens: None,
        tool_policy: None,
    };
    let s = p.merge_with(defaults());
    assert_eq!(s.default_provider, "anthropic");
    assert_eq!(s.default_model, "model-c");
    assert_eq!(s.theme, ThemeMode::System);
    assert_eq!(s.thinking_budget_tokens, 8000);
    assert_eq!(s.openai_api_key.as_deref(), Some("sk-openai"));
    assert!(s.tool_policy.requires_confirmation("bash"));
    assert!(s.tool_policy.is_enabled("bash"));
}

#[test]
fn partial_overrides_only_present_keys() {
    let p = PartialSettings {
        default_provider: None,
        default_model: Some("model-d".into()),
        anthropic_api_key: Some("sk-ant".into()),
        openai_api_key: None,
        theme: Some("DARK".into()),
        thinking_budget_tokens: Some(1024),
        tool_policy: Some(ToolPolicy { disabled: vec!["bash".into()], require_confirmation: vec![] }),
    };
    let s = p.merge_with(defaults());
    assert_eq!(s.default_provider, "anthropic");
    assert_eq!(s.default_model, "model-d");
    assert_eq!(s.anthropic_api_key.as_deref(), Some("sk-ant"));
    assert_eq!(s.openai_api_key.as_deref(), Some("sk-openai"));
    assert_eq!(s.theme, ThemeMode::Dark);
    assert_eq!(s.thinking_budget_tokens, 1024);
    assert!(!s.tool_policy.is_enabled("bash"));
    assert!(!s.tool_policy.requires_confirmation("bash"));
}
