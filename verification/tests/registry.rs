use local_workflow_agent::api::providers::{Backend, ClientConfig, ProviderId, ProviderSpec};
use local_workflow_agent::api::registry::{
    normalize_openai_base, normalize_openai_compat_base, provider_from_config, provider_from_key,
    resolve_provider_api_base, runtime_provider_for, ProviderRegistry,
};
use local_workflow_agent::config::{AuthStore, Config, Credential, Env, ProviderConfig};
use local_workflow_agent::ui::app::build_registry_from_settings;
use local_workflow_agent::ui::settings::Settings;

fn env(vars: &[(&str, &str)]) -> Env {
    Env::from_vars(vars.iter().map(|(k, v)| (k.to_string(), v.to_string())).collect())
}

fn ids(r: &ProviderRegistry) -> Vec<String> {
    let mut v: Vec<String> = r.provider_ids().iter().map(|id| id.as_str().to_string()).collect();
    v.sort();
    v
}

#[test]
fn registry_get_after_register_and_default() {
    let mut r = ProviderRegistry::new();
    assert!(r.default_provider().is_none());
    r.register(ProviderSpec::bare("groq", Backend::OpenAiCompatible));
    r.register(ProviderSpec::bare("groq", Backend::OpenAi));
    assert_eq!(r.provider_ids().len(), 1);
    assert_eq!(r.get(&ProviderId::new("groq")).unwrap().backend, Backend::OpenAi);
    assert!(r.contains("groq"));
    assert!(!r.contains("xai"));
    r.set_default(ProviderId::new("groq"));
    assert_eq!(r.default_provider_id().as_str(), "groq");
    assert_eq!(r.default_provider().unwrap().id.as_str(), "groq");
}

#[test]
fn environment_registers_keyed_and_local_providers() {
    let e = env(&[("DEEPSEEK_API_KEY", "k"), ("GROQ_API_KEY", ""), ("OPENAI_API_KEY", "sk")]);
    let r = ProviderRegistry::from_environment(ClientConfig::default(), &e);
    assert_eq!(
        ids(&r),
        vec!["anthropic", "deepseek", "llama-cpp", "lm-studio", "ollama", "openai"]
    );
    assert_eq!(r.default_provider_id().as_str(), "anthropic");
    let r = ProviderRegistry::from_environment(ClientConfig::default(), &Env::empty());
    assert_eq!(ids(&r), vec!["anthropic", "llama-cpp", "lm-studio", "ollama"]);
}

#[test]
fn auth_store_keys_add_providers() {
    let auth = AuthStore::new(vec![
        Credential { provider_id: "mistral".into(), api_key: Some("mk".into()) },
        Credential { provider_id: "groq".into(), api_key: None },
    ]);
    let r = ProviderRegistry::from_environment_with_auth_store(ClientConfig::default(), &Env::empty(), &auth);
    let m = r.get(&ProviderId::new("mistral")).expect("mistral registered");
    assert_eq!(m.api_key.as_deref(), Some("mk"));
    assert!(!r.contains("groq"));
    assert_eq!(runtime_provider_for("ollama", &auth).unwrap().id.as_str(), "ollama");
    assert!(runtime_provider_for("groq", &auth).is_none());
}

#[test]
fn config_resolution() {
    let config = Config::new(
        vec![
            ("openai".into(), ProviderConfig { enabled: true, api_key: Some("sk".into()), api_base: Some("".into()) }),
            ("groq".into(), ProviderConfig { enabled: false, api_key: Some("g".into()), api_base: None }),
            ("ollama".into(), ProviderConfig { enabled: true, api_key: None, api_base: Some("http://h:1".into()) }),
        ],
        Some("openai".into()),
    );
    let o = provider_from_config(&config, "openai").unwrap();
    assert_eq!(o.api_key.as_deref(), Some("sk"));
    assert_eq!(o.base_url, None);
    assert!(provider_from_config(&config, "groq").is_none());
    assert!(provider_from_config(&config, "anthropic").is_none());
    assert_eq!(provider_from_config(&config, "ollama").unwrap().base_url.as_deref(), Some("http://h:1/v1"));
    assert_eq!(resolve_provider_api_base(&config, "ollama").as_deref(), Some("http://h:1/v1"));
    assert_eq!(config.selected_provider_id(), "openai");
    assert!(provider_from_key("nope", "k".into()).is_none());
    assert_eq!(provider_from_key("openai", "k".into()).unwrap().backend, Backend::OpenAi);
}

#[test]
fn base_normalisation() {
    assert_eq!(normalize_openai_base("https://x.example/v1/"), "https://x.example");
    assert_eq!(normalize_openai_base("https://x.example//"), "https://x.example");
    assert_eq!(normalize_openai_compat_base("https://y.example/"), "https://y.example/v1");
    assert_eq!(normalize_openai_compat_base("https://y.example/v1"), "https://y.example/v1");
}

#[test]
fn settings_registry_keeps_typed_key() {
    let s = Settings::defaults_with_keys(Some("sk-ant".into()), Some("  ".into()), "m".into());
    let r = build_registry_from_settings(s, &Env::empty());
    assert!(!r.contains("openai"));
    let a = r.get(&ProviderId::new("anthropic")).expect("anthropic registered");
    assert_eq!(a.api_key.as_deref(), Some("sk-ant"));
    assert_eq!(a.base_url.as_deref(), Some("https://api.anthropic.com"));
}

#[test]
fn duplicate_keys_keep_the_first_binding() {
    let e = env(&[("OPENAI_API_KEY", "first"), ("OPENAI_API_KEY", "second")]);
    assert_eq!(e.var("OPENAI_API_KEY").map(|s| s.as_str()), Some("first"));
    let auth = AuthStore::new(vec![
        Credential { provider_id: "groq".into(), api_key: Some("g1".into()) },
        Credential { provider_id: "groq".into(), api_key: Some("g2".into()) },
    ]);
    assert_eq!(auth.api_key_for("groq").as_deref(), Some("g1"));
    assert_eq!(auth.credential_count(), 1);
    let config = Config::new(
        vec![
            ("ollama".into(), ProviderConfig { enabled: true, api_key: None, api_base: Some("http://a:1".into()) }),
            ("ollama".into(), ProviderConfig { enabled: true, api_key: None, api_base: Some("http://b:2".into()) }),
        ],
        None,
    );
    assert_eq!(config.provider_count(), 1);
    assert_eq!(config.resolve_provider_api_base("ollama").as_deref(), Some("http://a:1"));
}

#[test]
fn provider_keys_fall_back_to_their_environment_variable() {
    let config = Config::new(
        vec![("groq".into(), ProviderConfig { enabled: true, api_key: Some("stored".into()), api_base: None })],
        None,
    )
    .with_env(env(&[("DEEPSEEK_API_KEY", "ds"), ("GROQ_API_KEY", "env-groq"), ("DASHSCOPE_API_KEY", "")]));
    assert_eq!(config.resolve_provider_api_key("deepseek").as_deref(), Some("ds"));
    assert_eq!(config.resolve_provider_api_key("groq").as_deref(), Some("stored"));
    assert_eq!(config.resolve_provider_api_key("qwen"), None);
    assert_eq!(config.resolve_provider_api_key("unknown"), None);
    assert_eq!(provider_from_config(&config, "deepseek").unwrap().api_key.as_deref(), Some("ds"));
}
