//! Building the app's provider registry from its settings.

use vstd::prelude::*;
use vstd::string::*;

use crate::api::providers::{
    anthropic_from_config, anthropic_spec, bare_spec, openai_with_key, Backend, ClientConfig,
    ProviderId, ANTHROPIC, ANTHROPIC_API_BASE,
};
use crate::api::registry::{
    available_specs, empty_registry, enabled_remote_ids, ids_of, lemma_register_all_ids, lemma_selected_remote_ids,
    local_specs, register_all, register_spec, remote_table, selected_remote, ProviderRegistry, RegistryView,
};
use crate::config::Env;
use crate::text::{is_blank, is_blank_spec};
use crate::ui::settings::Settings;

verus! {

/// The registry built from a settings snapshot, before its default is chosen.
pub open spec fn settings_providers(s: Settings, env: Env) -> RegistryView {
    let with_anthropic = register_spec(
        empty_registry(),
        anthropic_spec(
            match s.anthropic_api_key {
                Some(k) => k@,
                None => Seq::empty(),
            },
            ANTHROPIC_API_BASE@,
        ),
    );
    let with_openai = match s.openai_api_key {
        Some(k) => if !is_blank_spec(k@) {
            register_spec(with_anthropic, bare_spec("openai"@, Backend::OpenAi).with_api_key(k@))
        } else {
            with_anthropic
        },
        None => with_anthropic,
    };
    register_all(with_openai, available_specs(env))
}

/// Built from settings, the registry holds exactly Anthropic, OpenAI when
/// the settings hold a non-blank OpenAI key, the local servers (Ollama, LM
/// Studio, llama.cpp), and each remote provider whose key variable is set
/// and not empty.
pub proof fn law_settings_provider_ids(s: Settings, env: Env)
    ensures
        settings_providers(s, env).providers.dom() == set![ANTHROPIC@, "ollama"@, "lm-studio"@, "llama-cpp"@].union(
            if s.openai_api_key matches Some(k) && !is_blank_spec(k@) {
                set!["openai"@]
            } else {
                Set::empty()
            },
        ).union(enabled_remote_ids(env, remote_table())),
{
    let with_anthropic = register_spec(
        empty_registry(),
        anthropic_spec(
            match s.anthropic_api_key {
                Some(k) => k@,
                None => Seq::empty(),
            },
            ANTHROPIC_API_BASE@,
        ),
    );
    let with_openai = match s.openai_api_key {
        Some(k) => if !is_blank_spec(k@) {
            register_spec(with_anthropic, bare_spec("openai"@, Backend::OpenAi).with_api_key(k@))
        } else {
            with_anthropic
        },
        None => with_anthropic,
    };
    let l = local_specs();
    let sel = selected_remote(env, remote_table());
    lemma_register_all_ids(with_openai, available_specs(env));
    lemma_selected_remote_ids(env, remote_table());
    assert(available_specs(env) == l + sel);
    let ps = l + sel;
    assert forall|id: Seq<char>| ids_of(ps).contains(id) <==> (ids_of(l).contains(id) || ids_of(sel).contains(id)) by {
        if ids_of(ps).contains(id) {
            let i = choose|i: int| 0 <= i < ps.len() && (#[trigger] ps[i]).id == id;
            if i < l.len() {
                assert(ps[i] == l[i]);
            } else {
                assert(ps[i] == sel[i - l.len()]);
            }
        }
        if ids_of(l).contains(id) {
            let i = choose|i: int| 0 <= i < l.len() && (#[trigger] l[i]).id == id;
            assert(ps[i] == l[i]);
        }
        if ids_of(sel).contains(id) {
            let i = choose|i: int| 0 <= i < sel.len() && (#[trigger] sel[i]).id == id;
            assert(ps[i + l.len()] == sel[i]);
        }
    }
    assert(ids_of(l) =~= set!["ollama"@, "lm-studio"@, "llama-cpp"@]) by {
        assert(l[0].id == "ollama"@ && l[1].id == "lm-studio"@ && l[2].id == "llama-cpp"@);
    }
    assert(settings_providers(s, env).providers.dom() =~= set![ANTHROPIC@, "ollama"@, "lm-studio"@, "llama-cpp"@]
        .union(
        if s.openai_api_key matches Some(k) && !is_blank_spec(k@) {
            set!["openai"@]
        } else {
            Set::empty()
        },
    ).union(enabled_remote_ids(env, remote_table())));
}

/// Build a registry from a settings snapshot: Anthropic always (with an empty
/// key when none is set), OpenAI when its key is not blank, the providers
/// available in `env`; the configured default provider when registered,
/// Anthropic otherwise.
pub fn build_registry_from_settings(s: Settings, env: &Env) -> (r: ProviderRegistry)
    ensures
        r@.providers == settings_providers(s, *env).providers,
        r@.default_id == (if settings_providers(s, *env).providers.contains_key(
            s.default_provider@,
        ) {
            s.default_provider@
        } else {
            ANTHROPIC@
        }),
{
    let ghost s0 = s;
    let mut registry = ProviderRegistry::new();
    let anthropic_key = match s.anthropic_api_key {
        Some(k) => k,
        None => String::new(),
    };
    let config = ClientConfig { api_key: anthropic_key, api_base: String::from_str(ANTHROPIC_API_BASE) };
    registry.register(anthropic_from_config(config));
    if let Some(key) = s.openai_api_key {
        if !is_blank(key.as_str()) {
            registry.register(openai_with_key(key));
        }
    }
    registry.with_available_providers(env);
    let default_id = ProviderId::new(s.default_provider.as_str());
    if registry.get(&default_id).is_some() {
        registry.set_default(default_id);
    } else {
        assert(registry@.providers.contains_key(ANTHROPIC@)) by {
            lemma_register_all_keeps(
                register_spec(empty_registry(), anthropic_spec(
                    match s0.anthropic_api_key {
                        Some(k) => k@,
                        None => Seq::empty(),
                    },
                    ANTHROPIC_API_BASE@,
                )),
                settings_providers(s0, *env),
                s0,
                *env,
            );
        }
        registry.set_default(ProviderId::new(ANTHROPIC));
    }
    registry
}

proof fn lemma_register_all_keeps_key(r: RegistryView, ps: Seq<crate::api::providers::ProviderSpecView>, k: Seq<char>)
    requires
        r.providers.contains_key(k),
    ensures
        register_all(r, ps).providers.contains_key(k),
    decreases ps.len(),
{
    if ps.len() > 0 {
        lemma_register_all_keeps_key(r, ps.drop_last(), k);
    }
}

proof fn lemma_register_all_keeps(r0: RegistryView, r: RegistryView, s: Settings, env: Env)
    requires
        r0.providers.contains_key(ANTHROPIC@),
        r == settings_providers(s, env),
        r0 == register_spec(
            empty_registry(),
            anthropic_spec(
                match s.anthropic_api_key {
                    Some(k) => k@,
                    None => Seq::empty(),
                },
                ANTHROPIC_API_BASE@,
            ),
        ),
    ensures
        r.providers.contains_key(ANTHROPIC@),
{
    let with_openai = match s.openai_api_key {
        Some(k) => if !is_blank_spec(k@) {
            register_spec(r0, bare_spec("openai"@, Backend::OpenAi).with_api_key(k@))
        } else {
            r0
        },
        None => r0,
    };
    assert(with_openai.providers.contains_key(ANTHROPIC@));
    lemma_register_all_keeps_key(with_openai, available_specs(env), ANTHROPIC@);
}

} // verus!

verus! {

/// A key as stored: trimmed, and absent when nothing is left.
pub open spec fn cleaned_key_spec(key: Option<Seq<char>>) -> Option<Seq<char>> {
    match key {
        Some(k) => if crate::text::trim_spec(k).len() > 0 {
            Some(crate::text::trim_spec(k))
        } else {
            None
        },
        None => None,
    }
}

/// A key as stored: trimmed, and absent when nothing is left.
pub fn clean_api_key(key: Option<String>) -> (r: Option<String>)
    ensures
        crate::api::providers::opt_view(r) == cleaned_key_spec(crate::api::providers::opt_view(key)),
{
    match key {
        Some(k) => {
            let t = crate::text::trim(k.as_str());
            if t.unicode_len() > 0 {
                Some(t)
            } else {
                None
            }
        },
        None => None,
    }
}

/// The settings with the (cleaned) key of `provider_id` replaced; only the
/// Anthropic and OpenAI keys are kept in settings, so any other provider
/// leaves them unchanged.
pub fn with_api_key(settings: Settings, provider_id: &str, key: Option<String>) -> (r: Settings)
    ensures
        provider_id@ == "anthropic"@ ==> r == (Settings { anthropic_api_key: r.anthropic_api_key, ..settings })
            && crate::api::providers::opt_view(r.anthropic_api_key) == cleaned_key_spec(
            crate::api::providers::opt_view(key),
        ),
        provider_id@ == "openai"@ ==> r == (Settings { openai_api_key: r.openai_api_key, ..settings })
            && crate::api::providers::opt_view(r.openai_api_key) == cleaned_key_spec(
            crate::api::providers::opt_view(key),
        ),
        provider_id@ != "anthropic"@ && provider_id@ != "openai"@ ==> r == settings,
{
    proof {
        reveal_strlit("anthropic");
        reveal_strlit("openai");
        assert("anthropic"@[0] != "openai"@[0]);
    }
    let cleaned = clean_api_key(key);
    let mut s = settings;
    if crate::text::str_eq(provider_id, "anthropic") {
        s.anthropic_api_key = cleaned;
    } else if crate::text::str_eq(provider_id, "openai") {
        s.openai_api_key = cleaned;
    }
    s
}

/// The settings with a new default provider and model.
pub fn with_default_model(settings: Settings, provider: &str, model: &str) -> (r: Settings)
    ensures
        r.default_provider@ == provider@,
        r.default_model@ == model@,
        r.theme == settings.theme,
        r.anthropic_api_key == settings.anthropic_api_key,
        r.openai_api_key == settings.openai_api_key,
        r.thinking_budget_tokens == settings.thinking_budget_tokens,
        r.tool_policy == settings.tool_policy,
{
    let mut s = settings;
    s.default_provider = String::from_str(provider);
    s.default_model = String::from_str(model);
    s
}

} // verus!
