//! Provider descriptors: which backend serves a provider id, with which API
//! key and base URL. The catalog of OpenAI-compatible presets lives here.

use vstd::prelude::*;
use vstd::string::*;

use crate::text::str_eq;

verus! {

/// Identifier of an LLM provider (`anthropic`, `openai`, `ollama`, …).
#[derive(Debug, Clone)]
pub struct ProviderId {
    pub id: String,
}

impl View for ProviderId {
    type V = Seq<char>;

    open spec fn view(&self) -> Seq<char> {
        self.id@
    }
}

/// The id of the Anthropic provider, the registry's default.
pub const ANTHROPIC: &'static str = "anthropic";

impl ProviderId {
    /// A provider id with the given text.
    pub fn new(id: &str) -> (r: ProviderId)
        ensures
            r@ == id@,
    {
        ProviderId { id: String::from_str(id) }
    }

    /// The id's text.
    pub fn as_str(&self) -> (r: &str)
        ensures
            r@ == self@,
    {
        self.id.as_str()
    }

    /// A copy of this id.
    pub fn duplicate(&self) -> (r: ProviderId)
        ensures
            r@ == self@,
    {
        ProviderId { id: self.id.clone() }
    }
}

/// The client implementation that talks to a provider.
#[derive(Debug, Clone, Copy, PartialEq, Eq, Structural)]
pub enum Backend {
    /// The Anthropic Messages API.
    Anthropic,
    /// The OpenAI API.
    OpenAi,
    /// Any OpenAI-compatible chat-completions endpoint.
    OpenAiCompatible,
}

/// Everything needed to construct a provider client.
#[derive(Debug, Clone)]
pub struct ProviderSpec {
    pub id: ProviderId,
    pub backend: Backend,
    /// API key; `None` when the provider needs none or none was given.
    pub api_key: Option<String>,
    /// Base URL override; `None` means the backend's default endpoint.
    pub base_url: Option<String>,
}

/// The content of a `ProviderSpec`.
pub struct ProviderSpecView {
    pub id: Seq<char>,
    pub backend: Backend,
    pub api_key: Option<Seq<char>>,
    pub base_url: Option<Seq<char>>,
}

/// The view of an optional string.
pub open spec fn opt_view(s: Option<String>) -> Option<Seq<char>> {
    match s {
        Some(t) => Some(t@),
        None => None,
    }
}

impl View for ProviderSpec {
    type V = ProviderSpecView;

    open spec fn view(&self) -> ProviderSpecView {
        ProviderSpecView {
            id: self.id@,
            backend: self.backend,
            api_key: opt_view(self.api_key),
            base_url: opt_view(self.base_url),
        }
    }
}

/// A descriptor with no key and the default endpoint.
pub open spec fn bare_spec(id: Seq<char>, backend: Backend) -> ProviderSpecView {
    ProviderSpecView { id, backend, api_key: None, base_url: None }
}

impl ProviderSpecView {
    /// The same descriptor with API key `key`.
    pub open spec fn with_api_key(self, key: Seq<char>) -> ProviderSpecView {
        ProviderSpecView { api_key: Some(key), ..self }
    }

    /// The same descriptor with base URL `base`.
    pub open spec fn with_base_url(self, base: Seq<char>) -> ProviderSpecView {
        ProviderSpecView { base_url: Some(base), ..self }
    }
}

impl ProviderSpec {
    /// A descriptor for `id` served by `backend`, no key, default endpoint.
    pub fn bare(id: &str, backend: Backend) -> (r: ProviderSpec)
        ensures
            r@ == bare_spec(id@, backend),
    {
        ProviderSpec { id: ProviderId::new(id), backend, api_key: None, base_url: None }
    }

    /// Set the API key.
    pub fn with_api_key(self, key: String) -> (r: ProviderSpec)
        ensures
            r@ == self@.with_api_key(key@),
    {
        ProviderSpec { api_key: Some(key), ..self }
    }

    /// Set the base URL.
    pub fn with_base_url(self, base: String) -> (r: ProviderSpec)
        ensures
            r@ == self@.with_base_url(base@),
    {
        ProviderSpec { base_url: Some(base), ..self }
    }
}

/// Connection settings of the Anthropic client.
#[derive(Debug, Clone)]
pub struct ClientConfig {
    pub api_key: String,
    pub api_base: String,
}

/// The Anthropic API endpoint.
pub const ANTHROPIC_API_BASE: &'static str = "https://api.anthropic.com";

impl Default for ClientConfig {
    fn default() -> (r: ClientConfig)
        ensures
            r.api_key@ == Seq::<char>::empty(),
            r.api_base@ == ANTHROPIC_API_BASE@,
    {
        ClientConfig { api_key: String::new(), api_base: String::from_str(ANTHROPIC_API_BASE) }
    }
}

/// The Anthropic provider a client configuration describes.
pub open spec fn anthropic_spec(key: Seq<char>, base: Seq<char>) -> ProviderSpecView {
    ProviderSpecView {
        id: ANTHROPIC@,
        backend: Backend::Anthropic,
        api_key: Some(key),
        base_url: Some(base),
    }
}

/// The Anthropic provider for a client configuration.
pub fn anthropic_from_config(config: ClientConfig) -> (r: ProviderSpec)
    ensures
        r@ == anthropic_spec(config.api_key@, config.api_base@),
{
    ProviderSpec {
        id: ProviderId::new(ANTHROPIC),
        backend: Backend::Anthropic,
        api_key: Some(config.api_key),
        base_url: Some(config.api_base),
    }
}

/// The OpenAI provider with API key `key`.
pub fn openai_with_key(key: String) -> (r: ProviderSpec)
    ensures
        r@ == bare_spec("openai"@, Backend::OpenAi).with_api_key(key@),
{
    ProviderSpec::bare("openai", Backend::OpenAi).with_api_key(key)
}

/// The ids of the OpenAI-compatible presets.
pub open spec fn compat_ids() -> Seq<Seq<char>> {
    seq![
        "ollama"@, "lm-studio"@, "llama-cpp"@, "deepseek"@, "groq"@, "xai"@, "openrouter"@,
        "together-ai"@, "perplexity"@, "cerebras"@, "deepinfra"@, "venice"@, "qwen"@,
        "mistral"@, "sambanova"@, "huggingface"@, "nvidia"@, "siliconflow"@, "moonshot"@,
        "zhipu"@, "zai"@, "nebius"@, "novita"@, "ovhcloud"@, "scaleway"@, "vultr-ai"@,
        "baseten"@, "friendli"@, "upstage"@, "stepfun"@, "fireworks"@, "opencode-zen"@,
    ]
}

fn compat_id_table() -> (r: Vec<&'static str>)
    ensures
        r@.map_values(|s: &str| s@) == compat_ids(),
{
    let r = vec![
        "ollama", "lm-studio", "llama-cpp", "deepseek", "groq", "xai", "openrouter",
        "together-ai", "perplexity", "cerebras", "deepinfra", "venice", "qwen", "mistral",
        "sambanova", "huggingface", "nvidia", "siliconflow", "moonshot", "zhipu", "zai",
        "nebius", "novita", "ovhcloud", "scaleway", "vultr-ai", "baseten", "friendli",
        "upstage", "stepfun", "fireworks", "opencode-zen",
    ];
    assert(r@.map_values(|s: &str| s@) =~= compat_ids());
    r
}

/// The OpenAI-compatible preset registered under `id`, if any.
pub open spec fn compat_preset_spec(id: Seq<char>) -> Option<ProviderSpecView> {
    if compat_ids().contains(id) {
        Some(bare_spec(id, Backend::OpenAiCompatible))
    } else {
        None
    }
}

/// The OpenAI-compatible preset registered under `id`, if any.
pub fn provider_for_id(id: &str) -> (r: Option<ProviderSpec>)
    ensures
        match r {
            Some(p) => compat_preset_spec(id@) == Some(p@),
            None => compat_preset_spec(id@) is None,
        },
{
    let table = compat_id_table();
    let n = table.len();
    let mut i: usize = 0;
    while i < n
        invariant
            n == table@.len(),
            table@.map_values(|s: &str| s@) == compat_ids(),
            i <= n,
            forall|j: int| 0 <= j < i ==> compat_ids()[j] != id@,
        decreases n - i,
    {
        if str_eq(table[i], id) {
            assert(compat_ids()[i as int] == id@);
            return Some(ProviderSpec::bare(id, Backend::OpenAiCompatible));
        }
        assert(compat_ids()[i as int] == table@[i as int]@);
        i = i + 1;
    }
    proof {
        if compat_ids().contains(id@) {
            let k = choose|k: int| 0 <= k < compat_ids().len() && compat_ids()[k] == id@;
            assert(compat_ids()[k] != id@);
        }
    }
    None
}

/// The local Ollama server.
pub fn ollama() -> (r: ProviderSpec)
    ensures
        r@ == bare_spec("ollama"@, Backend::OpenAiCompatible),
{
    ProviderSpec::bare("ollama", Backend::OpenAiCompatible)
}

/// The local LM Studio server.
pub fn lm_studio() -> (r: ProviderSpec)
    ensures
        r@ == bare_spec("lm-studio"@, Backend::OpenAiCompatible),
{
    ProviderSpec::bare("lm-studio", Backend::OpenAiCompatible)
}

/// The local llama.cpp server.
pub fn llama_cpp() -> (r: ProviderSpec)
    ensures
        r@ == bare_spec("llama-cpp"@, Backend::OpenAiCompatible),
{
    ProviderSpec::bare("llama-cpp", Backend::OpenAiCompatible)
}

/// A user-configured OpenAI-compatible endpoint.
pub fn custom_openai() -> (r: ProviderSpec)
    ensures
        r@ == bare_spec("custom-openai"@, Backend::OpenAiCompatible),
{
    ProviderSpec::bare("custom-openai", Backend::OpenAiCompatible)
}

} // verus!
