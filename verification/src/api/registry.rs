//! Registry of the available LLM providers: one descriptor per provider id,
//! plus the id of the default provider.

use vstd::prelude::*;
use vstd::string::*;

use crate::api::providers::{
    anthropic_from_config, anthropic_spec, bare_spec, compat_preset_spec, custom_openai, llama_cpp,
    lm_studio, ollama, openai_with_key, opt_view, provider_for_id, Backend, ClientConfig,
    ProviderId, ProviderSpec, ProviderSpecView, ANTHROPIC, ANTHROPIC_API_BASE,
};
use crate::config::{AuthStore, Config, Env};
use crate::text::{
    ends_with, ends_with_spec, str_eq, trim_end_char, trim_end_char_spec, trim_end_str,
    trim_end_str_spec,
};

verus! {

/// The content of a registry: descriptors by provider id, and the default id.
pub struct RegistryView {
    pub providers: Map<Seq<char>, ProviderSpecView>,
    pub default_id: Seq<char>,
}

/// Provider ids in `s` are pairwise distinct.
pub open spec fn distinct_ids(s: Seq<ProviderSpec>) -> bool {
    forall|i: int, j: int| 0 <= i < s.len() && 0 <= j < s.len() && i != j ==> s[i].id@ != s[j].id@
}

/// Some descriptor in `s` has id `k`.
pub open spec fn has_id(s: Seq<ProviderSpec>, k: Seq<char>) -> bool {
    exists|i: int| 0 <= i < s.len() && s[i].id@ == k
}

/// The position of the descriptor with id `k` in `s`.
pub open spec fn index_of_id(s: Seq<ProviderSpec>, k: Seq<char>) -> int {
    choose|i: int| 0 <= i < s.len() && s[i].id@ == k
}

/// The descriptors of `s` keyed by id.
pub open spec fn specs_map(s: Seq<ProviderSpec>) -> Map<Seq<char>, ProviderSpecView> {
    Map::new(|k: Seq<char>| has_id(s, k), |k: Seq<char>| s[index_of_id(s, k)]@)
}

proof fn lemma_specs_map_at(s: Seq<ProviderSpec>, i: int)
    requires
        distinct_ids(s),
        0 <= i < s.len(),
    ensures
        specs_map(s).contains_key(s[i].id@),
        specs_map(s)[s[i].id@] == s[i]@,
{
    let k = s[i].id@;
    assert(has_id(s, k));
    let j = index_of_id(s, k);
    assert(s[j].id@ == k);
    assert(i == j);
}

proof fn lemma_specs_map_update(s: Seq<ProviderSpec>, i: int, p: ProviderSpec)
    requires
        distinct_ids(s),
        0 <= i < s.len(),
        s[i].id@ == p.id@,
    ensures
        distinct_ids(s.update(i, p)),
        specs_map(s.update(i, p)) == specs_map(s).insert(p.id@, p@),
{
    let t = s.update(i, p);
    assert(distinct_ids(t)) by {
        assert forall|a: int, b: int| 0 <= a < t.len() && 0 <= b < t.len() && a != b implies t[a].id@
            != t[b].id@ by {
            assert(s[a].id@ != s[b].id@);
        }
    }
    assert forall|k: Seq<char>| has_id(t, k) <==> specs_map(s).insert(p.id@, p@).contains_key(k) by {
        if has_id(t, k) {
            let a = choose|a: int| 0 <= a < t.len() && t[a].id@ == k;
            if a != i {
                assert(has_id(s, k));
            }
        }
        if k == p.id@ {
            assert(t[i].id@ == k);
        } else if has_id(s, k) {
            let a = choose|a: int| 0 <= a < s.len() && s[a].id@ == k;
            assert(t[a].id@ == k);
        }
    }
    assert forall|k: Seq<char>| #[trigger] has_id(t, k) implies specs_map(t)[k] == specs_map(s).insert(
        p.id@,
        p@,
    )[k] by {
        let a = choose|a: int| 0 <= a < t.len() && t[a].id@ == k;
        lemma_specs_map_at(t, a);
        if a != i {
            lemma_specs_map_at(s, a);
        }
    }
    assert(specs_map(t) =~= specs_map(s).insert(p.id@, p@));
}

proof fn lemma_specs_map_push(s: Seq<ProviderSpec>, p: ProviderSpec)
    requires
        distinct_ids(s),
        !has_id(s, p.id@),
    ensures
        distinct_ids(s.push(p)),
        specs_map(s.push(p)) == specs_map(s).insert(p.id@, p@),
{
    let t = s.push(p);
    assert(distinct_ids(t)) by {
        assert forall|a: int, b: int| 0 <= a < t.len() && 0 <= b < t.len() && a != b implies t[a].id@
            != t[b].id@ by {
            if a < s.len() && b < s.len() {
                assert(s[a].id@ != s[b].id@);
            } else if a < s.len() {
                assert(s[a].id@ != p.id@);
            } else if b < s.len() {
                assert(s[b].id@ != p.id@);
            }
        }
    }
    assert forall|k: Seq<char>| has_id(t, k) <==> specs_map(s).insert(p.id@, p@).contains_key(k) by {
        if has_id(t, k) {
            let a = choose|a: int| 0 <= a < t.len() && t[a].id@ == k;
            if a < s.len() {
                assert(s[a].id@ == k);
            }
        }
        if k == p.id@ {
            assert(t[s.len() as int].id@ == k);
        } else if has_id(s, k) {
            let a = choose|a: int| 0 <= a < s.len() && s[a].id@ == k;
            assert(t[a].id@ == k);
        }
    }
    assert forall|k: Seq<char>| #[trigger] has_id(t, k) implies specs_map(t)[k] == specs_map(s).insert(
        p.id@,
        p@,
    )[k] by {
        let a = choose|a: int| 0 <= a < t.len() && t[a].id@ == k;
        lemma_specs_map_at(t, a);
        if a < s.len() {
            lemma_specs_map_at(s, a);
        }
    }
    assert(specs_map(t) =~= specs_map(s).insert(p.id@, p@));
}

/// Registry of all available LLM providers.
pub struct ProviderRegistry {
    providers: Vec<ProviderSpec>,
    default_provider_id: ProviderId,
}

impl View for ProviderRegistry {
    type V = RegistryView;

    closed spec fn view(&self) -> RegistryView {
        RegistryView { providers: specs_map(self.providers@), default_id: self.default_provider_id@ }
    }
}

/// The registry after registering `p`: `p` replaces any descriptor with the
/// same id; the default id is kept.
pub open spec fn register_spec(r: RegistryView, p: ProviderSpecView) -> RegistryView {
    RegistryView { providers: r.providers.insert(p.id, p), default_id: r.default_id }
}

/// Making `id` the default: the providers stay as they are.
pub open spec fn set_default_spec(r: RegistryView, id: Seq<char>) -> RegistryView {
    RegistryView { providers: r.providers, default_id: id }
}

/// After `set_default` with a registered id, the default provider is the
/// provider registered under that id, its id is the default id, and the
/// registered providers are unchanged.
pub proof fn law_default_after_set_default(r: RegistryView, id: Seq<char>)
    requires
        r.providers.contains_key(id),
    ensures
        set_default_spec(r, id).default_id == id,
        lookup(set_default_spec(r, id), set_default_spec(r, id).default_id) == lookup(r, id),
        lookup(r, id) is Some,
        set_default_spec(r, id).providers == r.providers,
{
}

/// Registering each descriptor of `ps` in order.
pub open spec fn register_all(r: RegistryView, ps: Seq<ProviderSpecView>) -> RegistryView
    decreases ps.len(),
{
    if ps.len() == 0 {
        r
    } else {
        register_spec(register_all(r, ps.drop_last()), ps.last())
    }
}

/// The lookup `get` performs.
pub open spec fn lookup(r: RegistryView, id: Seq<char>) -> Option<ProviderSpecView> {
    if r.providers.contains_key(id) {
        Some(r.providers[id])
    } else {
        None
    }
}

impl ProviderRegistry {
    #[verifier::type_invariant]
    closed spec fn inv(&self) -> bool {
        distinct_ids(self.providers@)
    }

    /// An empty registry with Anthropic as the default provider id.
    pub fn new() -> (r: ProviderRegistry)
        ensures
            r@.providers == Map::<Seq<char>, ProviderSpecView>::empty(),
            r@.default_id == ANTHROPIC@,
    {
        let r = ProviderRegistry { providers: Vec::new(), default_provider_id: ProviderId::new(ANTHROPIC) };
        assert(r@.providers =~= Map::<Seq<char>, ProviderSpecView>::empty());
        r
    }

    fn find(&self, id: &str) -> (r: Option<usize>)
        ensures
            match r {
                Some(i) => i < self.providers@.len() && self.providers@[i as int].id@ == id@,
                None => !has_id(self.providers@, id@),
            },
    {
        let n = self.providers.len();
        let mut i: usize = 0;
        while i < n
            invariant
                n == self.providers@.len(),
                i <= n,
                forall|j: int| 0 <= j < i ==> self.providers@[j].id@ != id@,
            decreases n - i,
        {
            if str_eq(self.providers[i].id.as_str(), id) {
                return Some(i);
            }
            i = i + 1;
        }
        None
    }

    fn insert_spec(&mut self, provider: ProviderSpec)
        ensures
            final(self)@ == register_spec(old(self)@, provider@),
    {
        proof { use_type_invariant(&*self); }
        let found = self.find(provider.id.as_str());
        let mut v: Vec<ProviderSpec> = Vec::new();
        std::mem::swap(&mut v, &mut self.providers);
        match found {
            Some(i) => {
                proof { lemma_specs_map_update(v@, i as int, provider); }
                v.set(i, provider);
            },
            None => {
                proof { lemma_specs_map_push(v@, provider); }
                v.push(provider);
            },
        }
        self.providers = v;
    }

    /// Register a provider, replacing any provider with the same id.
    /// Returns `&mut self` for builder chaining.
    pub fn register(&mut self, provider: ProviderSpec) -> (r: &mut ProviderRegistry)
        ensures
            r@ == register_spec(old(self)@, provider@),
            *final(self) == *final(r),
    {
        self.insert_spec(provider);
        self
    }

    /// Set the default provider by id. The id must be registered.
    pub fn set_default(&mut self, id: ProviderId) -> (r: &mut ProviderRegistry)
        requires
            old(self)@.providers.contains_key(id@),
        ensures
            r@ == set_default_spec(old(self)@, id@),
            *final(self) == *final(r),
    {
        proof { use_type_invariant(&*self); }
        self.default_provider_id = id;
        self
    }

    /// Get a provider by id.
    pub fn get(&self, id: &ProviderId) -> (r: Option<&ProviderSpec>)
        ensures
            match r {
                Some(p) => lookup(self@, id@) == Some(p@),
                None => lookup(self@, id@) is None,
            },
    {
        proof { use_type_invariant(self); }
        match self.find(id.as_str()) {
            Some(i) => {
                proof { lemma_specs_map_at(self.providers@, i as int); }
                Some(&self.providers[i])
            },
            None => None,
        }
    }

    /// Whether a provider with this id is registered.
    pub fn contains(&self, id: &str) -> (r: bool)
        ensures
            r == self@.providers.contains_key(id@),
    {
        self.find(id).is_some()
    }

    /// Get the default provider.
    pub fn default_provider(&self) -> (r: Option<&ProviderSpec>)
        ensures
            match r {
                Some(p) => lookup(self@, self@.default_id) == Some(p@),
                None => lookup(self@, self@.default_id) is None,
            },
    {
        self.get(&self.default_provider_id)
    }

    /// Get the default provider id.
    pub fn default_provider_id(&self) -> (r: &ProviderId)
        ensures
            r@ == self@.default_id,
    {
        &self.default_provider_id
    }

    /// List all registered provider ids (each once, in no promised order).
    pub fn provider_ids(&self) -> (r: Vec<&ProviderId>)
        ensures
            r@.map_values(|p: &ProviderId| p@).to_set() == self@.providers.dom(),
            r@.map_values(|p: &ProviderId| p@).no_duplicates(),
    {
        proof { use_type_invariant(self); }
        let n = self.providers.len();
        let mut out: Vec<&ProviderId> = Vec::new();
        let mut i: usize = 0;
        while i < n
            invariant
                n == self.providers@.len(),
                distinct_ids(self.providers@),
                i <= n,
                out@.len() == i,
                forall|j: int| 0 <= j < i ==> #[trigger] out@[j]@ == self.providers@[j].id@,
            decreases n - i,
        {
            out.push(&self.providers[i].id);
            i = i + 1;
        }
        let ghost ids = out@.map_values(|p: &ProviderId| p@);
        assert(ids.to_set() =~= self@.providers.dom()) by {
            assert forall|k: Seq<char>| ids.to_set().contains(k) implies self@.providers.dom().contains(
                k,
            ) by {
                let j = choose|j: int| 0 <= j < ids.len() && ids[j] == k;
                assert(ids[j] == self.providers@[j].id@);
            }
            assert forall|k: Seq<char>| self@.providers.dom().contains(k) implies ids.to_set().contains(
                k,
            ) by {
                let j = choose|j: int| 0 <= j < self.providers@.len() && self.providers@[j].id@ == k;
                assert(ids[j] == k);
            }
        }
        assert forall|a: int, b: int| 0 <= a < ids.len() && 0 <= b < ids.len() && a != b implies ids[a]
            != ids[b] by {
            assert(ids[a] == self.providers@[a].id@);
            assert(ids[b] == self.providers@[b].id@);
        }
        out
    }
}

impl Default for ProviderRegistry {
    fn default() -> (r: ProviderRegistry)
        ensures
            r@.providers == Map::<Seq<char>, ProviderSpecView>::empty(),
            r@.default_id == ANTHROPIC@,
    {
        ProviderRegistry::new()
    }
}

/// What `get` returns after `register`: the registered descriptor under its
/// own id, and the earlier answer under every other id; the default id is
/// untouched.
pub proof fn law_get_after_register(r: RegistryView, p: ProviderSpecView, id: Seq<char>)
    ensures
        lookup(register_spec(r, p), p.id) == Some(p),
        id != p.id ==> lookup(register_spec(r, p), id) == lookup(r, id),
        register_spec(r, p).default_id == r.default_id,
{
}

/// Registering the same descriptor twice is the same as registering it once,
/// and registering descriptors with distinct ids commutes.
pub proof fn law_register_idempotent_and_commutes(
    r: RegistryView,
    p: ProviderSpecView,
    q: ProviderSpecView,
)
    ensures
        register_spec(register_spec(r, p), p) == register_spec(r, p),
        p.id != q.id ==> register_spec(register_spec(r, p), q) == register_spec(
            register_spec(r, q),
            p,
        ),
{
    assert(register_spec(register_spec(r, p), p).providers =~= register_spec(r, p).providers);
    if p.id != q.id {
        assert(register_spec(register_spec(r, p), q).providers =~= register_spec(
            register_spec(r, q),
            p,
        ).providers);
    }
}

} // verus!

verus! {

/// Strip trailing `/`, then any trailing `/v1`: the OpenAI client appends
/// its own version path.
pub open spec fn normalize_openai_base_spec(base: Seq<char>) -> Seq<char> {
    let t = trim_end_char_spec(base, '/');
    if ends_with_spec(t, "/v1"@) {
        trim_end_str_spec(t, "/v1"@)
    } else {
        t
    }
}

/// Strip trailing `/`, then make sure the URL ends in `/v1`: compatible
/// endpoints are addressed with the version path included.
pub open spec fn normalize_openai_compat_base_spec(base: Seq<char>) -> Seq<char> {
    let t = trim_end_char_spec(base, '/');
    if ends_with_spec(t, "/v1"@) {
        t
    } else {
        t + "/v1"@
    }
}

/// Base URL for the OpenAI backend (no trailing `/` or `/v1`).
pub fn normalize_openai_base(override_base: &str) -> (r: String)
    ensures
        r@ == normalize_openai_base_spec(override_base@),
{
    let trimmed = trim_end_char(override_base, '/');
    if ends_with(trimmed, "/v1") {
        String::from_str(trim_end_str(trimmed, "/v1"))
    } else {
        String::from_str(trimmed)
    }
}

/// Base URL for an OpenAI-compatible backend (ends in `/v1`).
pub fn normalize_openai_compat_base(override_base: &str) -> (r: String)
    ensures
        r@ == normalize_openai_compat_base_spec(override_base@),
{
    let trimmed = trim_end_char(override_base, '/');
    if ends_with(trimmed, "/v1") {
        String::from_str(trimmed)
    } else {
        let mut s = String::from_str(trimmed);
        s.append("/v1");
        s
    }
}

/// The base URL a provider is configured with, normalized for its backend.
pub open spec fn resolve_api_base_spec(config: Config, id: Seq<char>) -> Option<Seq<char>> {
    match config.api_base_spec(id) {
        None => None,
        Some(b) => Some(
            if id == "openai"@ {
                normalize_openai_base_spec(b)
            } else if compat_preset_spec(id) is Some {
                normalize_openai_compat_base_spec(b)
            } else {
                b
            },
        ),
    }
}

/// The configured base URL of a provider, normalized: OpenAI without the
/// version path, OpenAI-compatible presets with it, others unchanged.
pub fn resolve_provider_api_base(config: &Config, provider_id: &str) -> (r: Option<String>)
    ensures
        match r {
            Some(b) => resolve_api_base_spec(*config, provider_id@) == Some(b@),
            None => resolve_api_base_spec(*config, provider_id@) is None,
        },
{
    let base = match config.resolve_provider_api_base(provider_id) {
        Some(b) => b,
        None => return None,
    };
    if str_eq(provider_id, "openai") {
        Some(normalize_openai_base(base.as_str()))
    } else if provider_for_id(provider_id).is_some() {
        Some(normalize_openai_compat_base(base.as_str()))
    } else {
        Some(base)
    }
}

/// The provider built from an API key alone.
pub open spec fn from_key_spec(id: Seq<char>, key: Seq<char>) -> Option<ProviderSpecView> {
    match compat_preset_spec(id) {
        Some(p) => Some(p.with_api_key(key)),
        None => if id == "anthropic"@ {
            Some(anthropic_spec(key, ANTHROPIC_API_BASE@))
        } else if id == "openai"@ {
            Some(bare_spec("openai"@, Backend::OpenAi).with_api_key(key))
        } else if id == "custom-openai"@ {
            Some(bare_spec("custom-openai"@, Backend::OpenAiCompatible).with_api_key(key))
        } else {
            None
        },
    }
}

/// Build the provider for `provider_id` from an API key: any
/// OpenAI-compatible preset, Anthropic, OpenAI or a custom OpenAI endpoint.
pub fn provider_from_key(provider_id: &str, key: String) -> (r: Option<ProviderSpec>)
    ensures
        match r {
            Some(p) => from_key_spec(provider_id@, key@) == Some(p@),
            None => from_key_spec(provider_id@, key@) is None,
        },
{
    if let Some(provider) = provider_for_id(provider_id) {
        return Some(provider.with_api_key(key));
    }
    if str_eq(provider_id, "anthropic") {
        let mut config = ClientConfig::default();
        config.api_key = key;
        Some(anthropic_from_config(config))
    } else if str_eq(provider_id, "openai") {
        Some(openai_with_key(key))
    } else if str_eq(provider_id, "custom-openai") {
        Some(custom_openai().with_api_key(key))
    } else {
        None
    }
}

/// `p` with key `key` when one is given.
pub open spec fn with_opt_key(p: ProviderSpecView, key: Option<Seq<char>>) -> ProviderSpecView {
    match key {
        Some(k) => p.with_api_key(k),
        None => p,
    }
}

/// `p` with base URL `base` when one is given.
pub open spec fn with_opt_base(p: ProviderSpecView, base: Option<Seq<char>>) -> ProviderSpecView {
    match base {
        Some(b) => p.with_base_url(b),
        None => p,
    }
}

/// The configured base URL, unless it is empty.
pub open spec fn nonempty_base(config: Config, id: Seq<char>) -> Option<Seq<char>> {
    match resolve_api_base_spec(config, id) {
        Some(b) => if b.len() > 0 {
            Some(b)
        } else {
            None
        },
        None => None,
    }
}

/// The provider a configuration yields for `id`.
pub open spec fn from_config_spec(config: Config, id: Seq<char>) -> Option<ProviderSpecView> {
    let key = config.api_key_spec(id);
    let base = nonempty_base(config, id);
    if config.config_of(id) matches Some(c) && !c.enabled {
        None
    } else if id == "anthropic"@ {
        None
    } else if id == "openai"@ {
        Some(
            with_opt_base(
                bare_spec("openai"@, Backend::OpenAi).with_api_key(
                    match key {
                        Some(k) => k,
                        None => Seq::empty(),
                    },
                ),
                base,
            ),
        )
    } else if id == "ollama"@ {
        Some(with_opt_base(bare_spec("ollama"@, Backend::OpenAiCompatible), base))
    } else if id == "lmstudio"@ || id == "lm-studio"@ {
        Some(with_opt_base(bare_spec("lm-studio"@, Backend::OpenAiCompatible), base))
    } else if id == "llamacpp"@ || id == "llama-cpp"@ || id == "llama-server"@ {
        Some(with_opt_base(bare_spec("llama-cpp"@, Backend::OpenAiCompatible), base))
    } else if id == "deepseek"@ || id == "groq"@ || id == "xai"@ || id == "openrouter"@ {
        Some(with_opt_base(with_opt_key(bare_spec(id, Backend::OpenAiCompatible), key), base))
    } else {
        match key {
            Some(k) => from_key_spec(id, k),
            None => None,
        }
    }
}

fn with_base_opt(p: ProviderSpec, base: Option<String>) -> (r: ProviderSpec)
    ensures
        r@ == with_opt_base(p@, opt_view(base)),
{
    match base {
        Some(b) => p.with_base_url(b),
        None => p,
    }
}

fn with_key_opt(p: ProviderSpec, key: Option<String>) -> (r: ProviderSpec)
    ensures
        r@ == with_opt_key(p@, opt_view(key)),
{
    match key {
        Some(k) => p.with_api_key(k),
        None => p,
    }
}

/// Build the provider `config` describes for `provider_id`: `None` when the
/// provider is disabled, for Anthropic (built from its client config
/// instead), and for key-based providers without a key.
pub fn provider_from_config(config: &Config, provider_id: &str) -> (r: Option<ProviderSpec>)
    ensures
        match r {
            Some(p) => from_config_spec(*config, provider_id@) == Some(p@),
            None => from_config_spec(*config, provider_id@) is None,
        },
        r matches Some(p) ==> (takes_configured_base(provider_id@) ==> p@.base_url == (
        match resolve_api_base_spec(*config, provider_id@) {
            Some(b) => if b.len() > 0 {
                Some(b)
            } else {
                None
            },
            None => None,
        })),
{
    proof {
        if takes_configured_base(provider_id@) {
            law_config_base_url_carried(*config, provider_id@);
        }
    }
    if let Some(c) = config.provider_config(provider_id) {
        if !c.enabled {
            return None;
        }
    }
    let api_key = config.resolve_provider_api_key(provider_id);
    let api_base = match resolve_provider_api_base(config, provider_id) {
        Some(b) => if b.unicode_len() > 0 {
            Some(b)
        } else {
            None
        },
        None => None,
    };
    assert(opt_view(api_key) == config.api_key_spec(provider_id@));
    assert(opt_view(api_base) == nonempty_base(*config, provider_id@));
    if str_eq(provider_id, "anthropic") {
        None
    } else if str_eq(provider_id, "openai") {
        let key = match api_key {
            Some(k) => k,
            None => String::new(),
        };
        Some(with_base_opt(openai_with_key(key), api_base))
    } else if str_eq(provider_id, "ollama") {
        Some(with_base_opt(ollama(), api_base))
    } else if str_eq(provider_id, "lmstudio") || str_eq(provider_id, "lm-studio") {
        Some(with_base_opt(lm_studio(), api_base))
    } else if str_eq(provider_id, "llamacpp") || str_eq(provider_id, "llama-cpp") || str_eq(
        provider_id,
        "llama-server",
    ) {
        Some(with_base_opt(llama_cpp(), api_base))
    } else if str_eq(provider_id, "deepseek") || str_eq(provider_id, "groq") || str_eq(
        provider_id,
        "xai",
    ) || str_eq(provider_id, "openrouter") {
        Some(
            with_base_opt(
                with_key_opt(ProviderSpec::bare(provider_id, Backend::OpenAiCompatible), api_key),
                api_base,
            ),
        )
    } else {
        match api_key {
            Some(key) => provider_from_key(provider_id, key),
            None => None,
        }
    }
}

/// The ids whose configured base URL `provider_from_config` applies: OpenAI,
/// the local servers under each of their names, and the key-based presets
/// DeepSeek, Groq, xAI and OpenRouter.
pub open spec fn takes_configured_base(id: Seq<char>) -> bool {
    ||| id == "openai"@
    ||| id == "ollama"@
    ||| id == "lmstudio"@
    ||| id == "lm-studio"@
    ||| id == "llamacpp"@
    ||| id == "llama-cpp"@
    ||| id == "llama-server"@
    ||| id == "deepseek"@
    ||| id == "groq"@
    ||| id == "xai"@
    ||| id == "openrouter"@
}

/// For each id that takes a configured base URL, the configuration yields a
/// provider unless the provider is disabled, and that provider is addressed
/// at the configured base URL (normalized for its backend) whenever one is
/// configured and not empty, at its default endpoint otherwise.
pub proof fn law_config_base_url_carried(config: Config, id: Seq<char>)
    requires
        takes_configured_base(id),
    ensures
        !(config.config_of(id) matches Some(c) && !c.enabled) ==> from_config_spec(config, id) is Some,
        from_config_spec(config, id) matches Some(p) ==> p.base_url == (match resolve_api_base_spec(
            config,
            id,
        ) {
            Some(b) => if b.len() > 0 {
                Some(b)
            } else {
                None
            },
            None => None,
        }),
{
    reveal_strlit("anthropic");
    reveal_strlit("openai");
    reveal_strlit("ollama");
    reveal_strlit("lmstudio");
    reveal_strlit("lm-studio");
    reveal_strlit("llamacpp");
    reveal_strlit("llama-cpp");
    reveal_strlit("llama-server");
    reveal_strlit("deepseek");
    reveal_strlit("groq");
    reveal_strlit("xai");
    reveal_strlit("openrouter");
    assert(id != "anthropic"@) by {
        assert(id.len() != 9 || id[0] != 'a');
    }
}

/// The provider a runtime lookup yields for `id`: local servers directly,
/// anything else from a non-empty stored key.
pub open spec fn runtime_spec(id: Seq<char>, auth: AuthStore) -> Option<ProviderSpecView> {
    if id == "ollama"@ {
        Some(bare_spec("ollama"@, Backend::OpenAiCompatible))
    } else if id == "lmstudio"@ || id == "lm-studio"@ {
        Some(bare_spec("lm-studio"@, Backend::OpenAiCompatible))
    } else if id == "llamacpp"@ || id == "llama-cpp"@ || id == "llama-server"@ {
        Some(bare_spec("llama-cpp"@, Backend::OpenAiCompatible))
    } else {
        match auth.api_key_spec(id) {
            Some(k) => if k.len() == 0 {
                None
            } else {
                from_key_spec(id, k)
            },
            None => None,
        }
    }
}

/// The provider to use at runtime for `provider_id`: local servers (which
/// need no key) directly; others from the key in `auth`, which the caller
/// loads from the persistent auth store.
pub fn runtime_provider_for(provider_id: &str, auth: &AuthStore) -> (r: Option<ProviderSpec>)
    ensures
        match r {
            Some(p) => runtime_spec(provider_id@, *auth) == Some(p@),
            None => runtime_spec(provider_id@, *auth) is None,
        },
{
    if str_eq(provider_id, "ollama") {
        return Some(ollama());
    }
    if str_eq(provider_id, "lmstudio") || str_eq(provider_id, "lm-studio") {
        return Some(lm_studio());
    }
    if str_eq(provider_id, "llamacpp") || str_eq(provider_id, "llama-cpp") || str_eq(
        provider_id,
        "llama-server",
    ) {
        return Some(llama_cpp());
    }
    let key = match auth.api_key_for(provider_id) {
        Some(k) => k,
        None => return None,
    };
    if key.unicode_len() == 0 {
        return None;
    }
    provider_from_key(provider_id, key)
}

} // verus!

verus! {

/// An empty registry with Anthropic as default.
pub open spec fn empty_registry() -> RegistryView {
    RegistryView { providers: Map::empty(), default_id: ANTHROPIC@ }
}

/// Registering `a` then `b` is registering `a + b`.
pub proof fn lemma_register_all_concat(
    r: RegistryView,
    a: Seq<ProviderSpecView>,
    b: Seq<ProviderSpecView>,
)
    ensures
        register_all(r, a + b) == register_all(register_all(r, a), b),
    decreases b.len(),
{
    if b.len() == 0 {
        assert(a + b =~= a);
    } else {
        assert((a + b).drop_last() =~= a + b.drop_last());
        lemma_register_all_concat(r, a, b.drop_last());
    }
}

/// The remote providers registered when their environment variable is set:
/// (variable, provider id).
pub open spec fn remote_table() -> Seq<(Seq<char>, Seq<char>)> {
    seq![
        ("DEEPSEEK_API_KEY"@, "deepseek"@),
        ("GROQ_API_KEY"@, "groq"@),
        ("XAI_API_KEY"@, "xai"@),
        ("OPENROUTER_API_KEY"@, "openrouter"@),
        ("TOGETHER_API_KEY"@, "together-ai"@),
        ("PERPLEXITY_API_KEY"@, "perplexity"@),
        ("CEREBRAS_API_KEY"@, "cerebras"@),
        ("DEEPINFRA_API_KEY"@, "deepinfra"@),
        ("VENICE_API_KEY"@, "venice"@),
        ("DASHSCOPE_API_KEY"@, "qwen"@),
        ("MISTRAL_API_KEY"@, "mistral"@),
        ("SAMBANOVA_API_KEY"@, "sambanova"@),
        ("HF_TOKEN"@, "huggingface"@),
        ("NVIDIA_API_KEY"@, "nvidia"@),
        ("SILICONFLOW_API_KEY"@, "siliconflow"@),
        ("MOONSHOT_API_KEY"@, "moonshot"@),
        ("ZHIPU_API_KEY"@, "zhipu"@),
        ("ZAI_API_KEY"@, "zai"@),
        ("NEBIUS_API_KEY"@, "nebius"@),
        ("NOVITA_API_KEY"@, "novita"@),
        ("OVHCLOUD_API_KEY"@, "ovhcloud"@),
        ("SCALEWAY_API_KEY"@, "scaleway"@),
        ("VULTR_API_KEY"@, "vultr-ai"@),
        ("BASETEN_API_KEY"@, "baseten"@),
        ("FRIENDLI_TOKEN"@, "friendli"@),
        ("UPSTAGE_API_KEY"@, "upstage"@),
        ("STEPFUN_API_KEY"@, "stepfun"@),
        ("FIREWORKS_API_KEY"@, "fireworks"@),
    ]
}

pub(crate) fn remote_table_exec() -> (r: Vec<(&'static str, &'static str)>)
    ensures
        r@.map_values(|p: (&str, &str)| (p.0@, p.1@)) == remote_table(),
{
    let r = vec![
        ("DEEPSEEK_API_KEY", "deepseek"),
        ("GROQ_API_KEY", "groq"),
        ("XAI_API_KEY", "xai"),
        ("OPENROUTER_API_KEY", "openrouter"),
        ("TOGETHER_API_KEY", "together-ai"),
        ("PERPLEXITY_API_KEY", "perplexity"),
        ("CEREBRAS_API_KEY", "cerebras"),
        ("DEEPINFRA_API_KEY", "deepinfra"),
        ("VENICE_API_KEY", "venice"),
        ("DASHSCOPE_API_KEY", "qwen"),
        ("MISTRAL_API_KEY", "mistral"),
        ("SAMBANOVA_API_KEY", "sambanova"),
        ("HF_TOKEN", "huggingface"),
        ("NVIDIA_API_KEY", "nvidia"),
        ("SILICONFLOW_API_KEY", "siliconflow"),
        ("MOONSHOT_API_KEY", "moonshot"),
        ("ZHIPU_API_KEY", "zhipu"),
        ("ZAI_API_KEY", "zai"),
        ("NEBIUS_API_KEY", "nebius"),
        ("NOVITA_API_KEY", "novita"),
        ("OVHCLOUD_API_KEY", "ovhcloud"),
        ("SCALEWAY_API_KEY", "scaleway"),
        ("VULTR_API_KEY", "vultr-ai"),
        ("BASETEN_API_KEY", "baseten"),
        ("FRIENDLI_TOKEN", "friendli"),
        ("UPSTAGE_API_KEY", "upstage"),
        ("STEPFUN_API_KEY", "stepfun"),
        ("FIREWORKS_API_KEY", "fireworks"),
    ];
    assert(r@.map_values(|p: (&str, &str)| (p.0@, p.1@)) =~= remote_table());
    r
}

/// The remote providers of `table` whose variable is set (non-empty) in `env`.
pub open spec fn selected_remote(env: Env, table: Seq<(Seq<char>, Seq<char>)>) -> Seq<
    ProviderSpecView,
>
    decreases table.len(),
{
    if table.len() == 0 {
        Seq::empty()
    } else {
        let rest = selected_remote(env, table.drop_last());
        if env.nonempty_spec(table.last().0) {
            rest.push(bare_spec(table.last().1, Backend::OpenAiCompatible))
        } else {
            rest
        }
    }
}

/// The local servers, always registered.
pub open spec fn local_specs() -> Seq<ProviderSpecView> {
    seq![
        bare_spec("ollama"@, Backend::OpenAiCompatible),
        bare_spec("lm-studio"@, Backend::OpenAiCompatible),
        bare_spec("llama-cpp"@, Backend::OpenAiCompatible),
    ]
}

/// Everything `with_available_providers` registers, in order.
pub open spec fn available_specs(env: Env) -> Seq<ProviderSpecView> {
    local_specs() + selected_remote(env, remote_table())
}

/// The OpenAI provider registered when `OPENAI_API_KEY` is set (even empty).
pub open spec fn openai_from_env(env: Env) -> Seq<ProviderSpecView> {
    match env.var_spec("OPENAI_API_KEY"@) {
        Some(k) => seq![bare_spec("openai"@, Backend::OpenAi).with_api_key(k)],
        None => Seq::empty(),
    }
}

/// The registry `from_environment` builds.
pub open spec fn from_environment_spec(anthropic: ClientConfig, env: Env) -> RegistryView {
    register_all(
        register_spec(empty_registry(), anthropic_spec(anthropic.api_key@, anthropic.api_base@)),
        openai_from_env(env) + available_specs(env),
    )
}

/// The ids of the descriptors in `ps`.
pub open spec fn ids_of(ps: Seq<ProviderSpecView>) -> Set<Seq<char>> {
    Set::new(|id: Seq<char>| exists|i: int| 0 <= i < ps.len() && (#[trigger] ps[i]).id == id)
}

/// The ids of the remote providers of `table` whose variable is set (not
/// empty) in `env`.
pub open spec fn enabled_remote_ids(env: Env, table: Seq<(Seq<char>, Seq<char>)>) -> Set<Seq<char>> {
    Set::new(
        |id: Seq<char>|
            exists|i: int| 0 <= i < table.len() && (#[trigger] table[i]).1 == id && env.nonempty_spec(table[i].0),
    )
}

/// Registering descriptors adds exactly their ids.
pub proof fn lemma_register_all_ids(r: RegistryView, ps: Seq<ProviderSpecView>)
    ensures
        register_all(r, ps).providers.dom() == r.providers.dom().union(ids_of(ps)),
    decreases ps.len(),
{
    if ps.len() == 0 {
        assert(ids_of(ps) =~= Set::empty());
        assert(r.providers.dom().union(ids_of(ps)) =~= r.providers.dom());
    } else {
        let init = ps.drop_last();
        lemma_register_all_ids(r, init);
        assert forall|id: Seq<char>| ids_of(ps).contains(id) <==> (ids_of(init).contains(id) || id == ps.last().id) by {
            if ids_of(ps).contains(id) {
                let i = choose|i: int| 0 <= i < ps.len() && (#[trigger] ps[i]).id == id;
                if i < ps.len() - 1 {
                    assert(init[i] == ps[i]);
                }
            }
            if ids_of(init).contains(id) {
                let i = choose|i: int| 0 <= i < init.len() && (#[trigger] init[i]).id == id;
                assert(ps[i] == init[i]);
            }
            if id == ps.last().id {
                assert(ps[ps.len() - 1] == ps.last());
            }
        }
        assert(register_all(r, ps).providers.dom() =~= r.providers.dom().union(ids_of(ps)));
    }
}

/// The ids of the selected remote providers are the enabled remote ids.
pub proof fn lemma_selected_remote_ids(env: Env, table: Seq<(Seq<char>, Seq<char>)>)
    ensures
        ids_of(selected_remote(env, table)) == enabled_remote_ids(env, table),
    decreases table.len(),
{
    if table.len() == 0 {
        assert(ids_of(selected_remote(env, table)) =~= enabled_remote_ids(env, table));
    } else {
        let init = table.drop_last();
        lemma_selected_remote_ids(env, init);
        let rest = selected_remote(env, init);
        let sel = selected_remote(env, table);
        assert forall|id: Seq<char>| ids_of(sel).contains(id) <==> enabled_remote_ids(env, table).contains(id) by {
            if ids_of(sel).contains(id) {
                let i = choose|i: int| 0 <= i < sel.len() && (#[trigger] sel[i]).id == id;
                if i < rest.len() {
                    assert(sel[i] == rest[i]);
                    assert(ids_of(rest).contains(id));
                    let j = choose|j: int| 0 <= j < init.len() && (#[trigger] init[j]).1 == id && env.nonempty_spec(init[j].0);
                    assert(table[j] == init[j]);
                } else {
                    assert(table[table.len() - 1] == table.last());
                }
            }
            if enabled_remote_ids(env, table).contains(id) {
                let j = choose|j: int| 0 <= j < table.len() && (#[trigger] table[j]).1 == id && env.nonempty_spec(table[j].0);
                if j < table.len() - 1 {
                    assert(init[j] == table[j]);
                    assert(enabled_remote_ids(env, init).contains(id));
                    let i = choose|i: int| 0 <= i < rest.len() && (#[trigger] rest[i]).id == id;
                    if env.nonempty_spec(table.last().0) {
                        assert(sel[i] == rest[i]);
                    }
                } else {
                    assert(table.last() == table[j]);
                    assert(sel[sel.len() - 1].id == id);
                }
            }
        }
        assert(ids_of(sel) =~= enabled_remote_ids(env, table));
    }
}

/// Built from the environment, the registry holds exactly Anthropic, the
/// local servers (Ollama, LM Studio, llama.cpp), OpenAI when
/// `OPENAI_API_KEY` is set, and each remote provider whose key variable is
/// set and not empty.
pub proof fn law_environment_provider_ids(anthropic: ClientConfig, env: Env)
    ensures
        from_environment_spec(anthropic, env).providers.dom() == set![ANTHROPIC@, "ollama"@, "lm-studio"@, "llama-cpp"@]
            .union(
            if env.var_spec("OPENAI_API_KEY"@) is Some {
                set!["openai"@]
            } else {
                Set::empty()
            },
        ).union(enabled_remote_ids(env, remote_table())),
{
    let base = register_spec(empty_registry(), anthropic_spec(anthropic.api_key@, anthropic.api_base@));
    let ps = openai_from_env(env) + available_specs(env);
    lemma_register_all_ids(base, ps);
    lemma_selected_remote_ids(env, remote_table());
    let sel = selected_remote(env, remote_table());
    let o = openai_from_env(env);
    let l = local_specs();
    assert(available_specs(env) == l + sel);
    assert forall|id: Seq<char>| ids_of(ps).contains(id) <==> (ids_of(o).contains(id) || ids_of(l).contains(id)
        || ids_of(sel).contains(id)) by {
        if ids_of(ps).contains(id) {
            let i = choose|i: int| 0 <= i < ps.len() && (#[trigger] ps[i]).id == id;
            if i < o.len() {
                assert(ps[i] == o[i]);
            } else if i < o.len() + l.len() {
                assert(ps[i] == l[i - o.len()]);
            } else {
                assert(ps[i] == sel[i - o.len() - l.len()]);
            }
        }
        if ids_of(o).contains(id) {
            let i = choose|i: int| 0 <= i < o.len() && (#[trigger] o[i]).id == id;
            assert(ps[i] == o[i]);
        }
        if ids_of(l).contains(id) {
            let i = choose|i: int| 0 <= i < l.len() && (#[trigger] l[i]).id == id;
            assert(ps[i + o.len()] == l[i]);
        }
        if ids_of(sel).contains(id) {
            let i = choose|i: int| 0 <= i < sel.len() && (#[trigger] sel[i]).id == id;
            assert(ps[i + o.len() + l.len()] == sel[i]);
        }
    }
    assert(ids_of(l) =~= set!["ollama"@, "lm-studio"@, "llama-cpp"@]) by {
        assert(l[0].id == "ollama"@ && l[1].id == "lm-studio"@ && l[2].id == "llama-cpp"@);
    }
    assert(ids_of(o) =~= (if env.var_spec("OPENAI_API_KEY"@) is Some {
        set!["openai"@]
    } else {
        Set::empty()
    })) by {
        if env.var_spec("OPENAI_API_KEY"@) is Some {
            assert(o[0].id == "openai"@);
        }
    }
    assert(base.providers.dom() =~= set![ANTHROPIC@]);
    assert(from_environment_spec(anthropic, env).providers.dom() =~= set![ANTHROPIC@, "ollama"@, "lm-studio"@, "llama-cpp"@]
        .union(
        if env.var_spec("OPENAI_API_KEY"@) is Some {
            set!["openai"@]
        } else {
            Set::empty()
        },
    ).union(enabled_remote_ids(env, remote_table())));
}

/// Registering descriptors none of which has id `id` leaves the lookup of
/// `id` as it was.
pub proof fn lemma_register_all_keeps(r: RegistryView, ps: Seq<ProviderSpecView>, id: Seq<char>)
    requires
        forall|i: int| 0 <= i < ps.len() ==> (#[trigger] ps[i]).id != id,
    ensures
        lookup(register_all(r, ps), id) == lookup(r, id),
    decreases ps.len(),
{
    if ps.len() > 0 {
        let init = ps.drop_last();
        assert forall|i: int| 0 <= i < init.len() implies (#[trigger] init[i]).id != id by {
            assert(init[i] == ps[i]);
        }
        lemma_register_all_keeps(r, init, id);
        assert(ps[ps.len() - 1] == ps.last());
    }
}

/// No remote provider of the table, and no local server, is registered
/// under the id `openai`.
proof fn lemma_openai_not_available(env: Env)
    ensures
        forall|i: int|
            0 <= i < available_specs(env).len() ==> (#[trigger] available_specs(env)[i]).id
                != "openai"@,
{
    reveal_strlit("openai");
    reveal_strlit("ollama");
    reveal_strlit("lm-studio");
    reveal_strlit("llama-cpp");
    reveal_strlit("deepseek");
    reveal_strlit("groq");
    reveal_strlit("xai");
    reveal_strlit("openrouter");
    reveal_strlit("together-ai");
    reveal_strlit("perplexity");
    reveal_strlit("cerebras");
    reveal_strlit("deepinfra");
    reveal_strlit("venice");
    reveal_strlit("qwen");
    reveal_strlit("mistral");
    reveal_strlit("sambanova");
    reveal_strlit("huggingface");
    reveal_strlit("nvidia");
    reveal_strlit("siliconflow");
    reveal_strlit("moonshot");
    reveal_strlit("zhipu");
    reveal_strlit("zai");
    reveal_strlit("nebius");
    reveal_strlit("novita");
    reveal_strlit("ovhcloud");
    reveal_strlit("scaleway");
    reveal_strlit("vultr-ai");
    reveal_strlit("baseten");
    reveal_strlit("friendli");
    reveal_strlit("upstage");
    reveal_strlit("stepfun");
    reveal_strlit("fireworks");
    let t = remote_table();
    assert forall|j: int| 0 <= j < t.len() implies (#[trigger] t[j]).1 != "openai"@ by {
        assert(t[j].1.len() != 6 || t[j].1[0] != 'o');
    }
    let l = local_specs();
    let sel = selected_remote(env, t);
    lemma_selected_remote_ids(env, t);
    let a = available_specs(env);
    assert forall|i: int| 0 <= i < a.len() implies (#[trigger] a[i]).id != "openai"@ by {
        if i < l.len() {
            assert(a[i] == l[i]);
            assert(l[i].id.len() != 6 || l[i].id[1] != 'p');
        } else {
            assert(a[i] == sel[i - l.len()]);
            if a[i].id == "openai"@ {
                assert(ids_of(sel).contains(a[i].id));
                assert(enabled_remote_ids(env, t).contains("openai"@));
                let j = choose|j: int|
                    0 <= j < t.len() && (#[trigger] t[j]).1 == "openai"@ && env.nonempty_spec(
                        t[j].0,
                    );
                assert(t[j].1 != "openai"@);
            }
        }
    }
}

/// Built from the environment with `OPENAI_API_KEY` set to `k`, the
/// registry's `openai` provider is OpenAI carrying exactly the key `k` (even
/// an empty one); with the variable unset, no `openai` provider is
/// registered.
pub proof fn law_environment_openai_key(anthropic: ClientConfig, env: Env)
    ensures
        env.var_spec("OPENAI_API_KEY"@) matches Some(k) ==> lookup(
            from_environment_spec(anthropic, env),
            "openai"@,
        ) == Some(bare_spec("openai"@, Backend::OpenAi).with_api_key(k)),
        env.var_spec("OPENAI_API_KEY"@) is None ==> lookup(
            from_environment_spec(anthropic, env),
            "openai"@,
        ) is None,
{
    let base = register_spec(empty_registry(), anthropic_spec(anthropic.api_key@, anthropic.api_base@));
    let o = openai_from_env(env);
    lemma_register_all_concat(base, o, available_specs(env));
    lemma_openai_not_available(env);
    lemma_register_all_keeps(register_all(base, o), available_specs(env), "openai"@);
    reveal_strlit("openai");
    reveal_strlit("anthropic");
    assert(ANTHROPIC@ == "anthropic"@);
    assert("anthropic"@.len() != "openai"@.len());
    if env.var_spec("OPENAI_API_KEY"@) is Some {
        assert(o.drop_last() =~= Seq::<ProviderSpecView>::empty());
        assert(register_all(base, o.drop_last()) == base);
    } else {
        assert(o =~= Seq::<ProviderSpecView>::empty());
    }
}

/// One auth-store step: register the credential's provider unless it is
/// already registered or has no non-empty key.
pub open spec fn auth_step(r: RegistryView, id: Seq<char>, auth: AuthStore) -> RegistryView {
    if r.providers.contains_key(id) {
        r
    } else {
        match auth.api_key_spec(id) {
            Some(k) => if k.len() == 0 {
                r
            } else {
                match from_key_spec(id, k) {
                    Some(p) => register_spec(r, p),
                    None => r,
                }
            },
            None => r,
        }
    }
}

/// Applying `auth_step` for each credential id in order.
pub open spec fn auth_fold(r: RegistryView, ids: Seq<Seq<char>>, auth: AuthStore) -> RegistryView
    decreases ids.len(),
{
    if ids.len() == 0 {
        r
    } else {
        auth_step(auth_fold(r, ids.drop_last(), auth), ids.last(), auth)
    }
}

/// The provider ids of the stored credentials, in order.
pub open spec fn credential_ids(auth: AuthStore) -> Seq<Seq<char>> {
    auth.credential_ids()
}

/// One configuration step: register the provider the configuration yields
/// for `id`, if any.
pub open spec fn config_step(r: RegistryView, config: Config, id: Seq<char>) -> RegistryView {
    match from_config_spec(config, id) {
        Some(p) => register_spec(r, p),
        None => r,
    }
}

/// Applying `config_step` for each id in order.
pub open spec fn config_fold(r: RegistryView, config: Config, ids: Seq<Seq<char>>) -> RegistryView
    decreases ids.len(),
{
    if ids.len() == 0 {
        r
    } else {
        config_step(config_fold(r, config, ids.drop_last()), config, ids.last())
    }
}

/// The ids `from_config` builds providers for: every configured id, then the
/// selected id when it is not among them.
pub open spec fn config_ids(config: Config) -> Seq<Seq<char>> {
    let keys = config.configured_ids();
    if keys.contains(config.selected_spec()) {
        keys
    } else {
        keys.push(config.selected_spec())
    }
}

impl ProviderRegistry {
    /// A registry with just Anthropic registered (the default provider).
    pub fn with_anthropic(config: ClientConfig) -> (r: ProviderRegistry)
        ensures
            r@ == register_spec(empty_registry(), anthropic_spec(config.api_key@, config.api_base@)),
    {
        let mut registry = ProviderRegistry::new();
        let provider = anthropic_from_config(config);
        registry.register(provider);
        registry
    }

    /// Register OpenAI if `OPENAI_API_KEY` is set in `env`.
    pub fn with_openai_if_key_set(&mut self, env: &Env) -> (r: &mut ProviderRegistry)
        ensures
            r@ == register_all(old(self)@, openai_from_env(*env)),
            *final(self) == *final(r),
            env.var_spec("OPENAI_API_KEY"@) matches Some(k) ==> lookup(r@, "openai"@) == Some(
                bare_spec("openai"@, Backend::OpenAi).with_api_key(k),
            ),
            env.var_spec("OPENAI_API_KEY"@) is None ==> r@ == old(self)@,
    {
        match env.var("OPENAI_API_KEY") {
            Some(key) => {
                let provider = openai_with_key(key.clone());
                let ghost pv = provider@;
                self.register(provider);
                assert(openai_from_env(*env) =~= seq![pv]);
                assert(seq![pv].drop_last() =~= Seq::<ProviderSpecView>::empty());
                assert(register_all(old(self)@, Seq::<ProviderSpecView>::empty()) == old(self)@);
                assert(register_all(old(self)@, seq![pv]) == register_spec(old(self)@, pv));
            },
            None => {
                assert(openai_from_env(*env) =~= Seq::<ProviderSpecView>::empty());
                assert(register_all(old(self)@, Seq::<ProviderSpecView>::empty()) == old(self)@);
            },
        }
        self
    }

    /// Register the local servers (always) and each remote provider whose
    /// environment variable is set to a non-empty value in `env`.
    pub fn with_available_providers(&mut self, env: &Env) -> (r: &mut ProviderRegistry)
        ensures
            r@ == register_all(old(self)@, available_specs(*env)),
            *final(self) == *final(r),
    {
        self.register(ollama());
        self.register(lm_studio());
        self.register(llama_cpp());
        proof {
            let l = local_specs();
            let e = Seq::<ProviderSpecView>::empty();
            assert(l.drop_last().drop_last().drop_last() =~= e);
            assert(seq![l[0]].drop_last() =~= e);
            assert(l.drop_last().drop_last() =~= seq![l[0]]);
            assert(l.drop_last() =~= seq![l[0], l[1]]);
            assert(seq![l[0], l[1]].drop_last() =~= seq![l[0]]);
            assert(register_all(old(self)@, e) == old(self)@);
            assert(register_all(old(self)@, seq![l[0]]) == register_spec(old(self)@, l[0]));
            assert(register_all(old(self)@, seq![l[0], l[1]]) == register_spec(
                register_spec(old(self)@, l[0]),
                l[1],
            ));
            assert(register_all(old(self)@, l) == self@);
        }
        let ghost mid = self@;
        let table = remote_table_exec();
        let n = table.len();
        let mut i: usize = 0;
        assert(remote_table().take(0) =~= Seq::<(Seq<char>, Seq<char>)>::empty());
        while i < n
            invariant
                n == table@.len(),
                table@.map_values(|p: (&str, &str)| (p.0@, p.1@)) == remote_table(),
                i <= n,
                mid == register_all(old(self)@, local_specs()),
                self@ == register_all(mid, selected_remote(*env, remote_table().take(i as int))),
            decreases n - i,
        {
            let (var, id) = table[i];
            assert(remote_table()[i as int] == (var@, id@));
            assert(remote_table().take(i + 1).drop_last() =~= remote_table().take(i as int));
            assert(remote_table().take(i + 1).last() == remote_table()[i as int]);
            let ghost before = selected_remote(*env, remote_table().take(i as int));
            if env.nonempty(var) {
                self.register(ProviderSpec::bare(id, Backend::OpenAiCompatible));
                assert(selected_remote(*env, remote_table().take(i + 1)) == before.push(
                    bare_spec(id@, Backend::OpenAiCompatible),
                ));
                assert(before.push(bare_spec(id@, Backend::OpenAiCompatible)).drop_last() =~= before);
            } else {
                assert(selected_remote(*env, remote_table().take(i + 1)) == before);
            }
            i = i + 1;
        }
        proof {
            assert(remote_table().take(n as int) =~= remote_table());
            lemma_register_all_concat(old(self)@, local_specs(), selected_remote(*env, remote_table()));
        }
        self
    }

    /// A registry with Anthropic (the default), OpenAI when its key is set,
    /// the local servers, and the remote providers whose keys are set in `env`.
    pub fn from_environment(anthropic_config: ClientConfig, env: &Env) -> (r: ProviderRegistry)
        ensures
            r@ == from_environment_spec(anthropic_config, *env),
            env.var_spec("OPENAI_API_KEY"@) matches Some(k) ==> lookup(r@, "openai"@) == Some(
                bare_spec("openai"@, Backend::OpenAi).with_api_key(k),
            ),
    {
        let ghost cfg = anthropic_config;
        let mut registry = ProviderRegistry::with_anthropic(anthropic_config);
        let ghost r0 = registry@;
        registry.with_openai_if_key_set(env);
        registry.with_available_providers(env);
        proof {
            lemma_register_all_concat(r0, openai_from_env(*env), available_specs(*env));
            law_environment_openai_key(cfg, *env);
        }
        registry
    }

    /// `from_environment`, then every provider with a non-empty key in the
    /// auth store that is not registered yet (`auth` is the loaded store).
    pub fn from_environment_with_auth_store(
        anthropic_config: ClientConfig,
        env: &Env,
        auth: &AuthStore,
    ) -> (r: ProviderRegistry)
        ensures
            r@ == auth_fold(from_environment_spec(anthropic_config, *env), credential_ids(*auth), *auth),
    {
        let ghost cfg = anthropic_config;
        let mut registry = ProviderRegistry::from_environment(anthropic_config, env);
        let ghost r0 = registry@;
        let n = auth.credential_count();
        let mut i: usize = 0;
        assert(credential_ids(*auth).take(0) =~= Seq::<Seq<char>>::empty());
        while i < n
            invariant
                n == credential_ids(*auth).len(),
                i <= n,
                r0 == from_environment_spec(cfg, *env),
                registry@ == auth_fold(r0, credential_ids(*auth).take(i as int), *auth),
            decreases n - i,
        {
            let provider_id = auth.credential_provider_at(i);
            assert(credential_ids(*auth)[i as int] == provider_id@);
            assert(credential_ids(*auth).take(i + 1).drop_last() =~= credential_ids(*auth).take(
                i as int,
            ));
            if !registry.contains(provider_id) {
                if let Some(key) = auth.api_key_for(provider_id) {
                    if key.unicode_len() > 0 {
                        if let Some(p) = provider_from_key(provider_id, key) {
                            registry.register(p);
                        }
                    }
                }
            }
            i = i + 1;
        }
        assert(credential_ids(*auth).take(n as int) =~= credential_ids(*auth));
        registry
    }

    /// Build the registry for a configuration: environment and auth-store
    /// providers, then the provider each configured id (and the selected id)
    /// yields; the selected provider becomes the default when registered.
    pub fn from_config(
        config: &Config,
        anthropic_config: ClientConfig,
        env: &Env,
        auth: &AuthStore,
    ) -> (r: ProviderRegistry)
        ensures
            ({
                let base = auth_fold(
                    from_environment_spec(anthropic_config, *env),
                    credential_ids(*auth),
                    *auth,
                );
                let built = config_fold(base, *config, config_ids(*config));
                &&& r@.providers == built.providers
                &&& r@.default_id == (if built.providers.contains_key(config.selected_spec()) {
                    config.selected_spec()
                } else {
                    built.default_id
                })
            }),
    {
        let ghost cfg = anthropic_config;
        let mut registry = ProviderRegistry::from_environment_with_auth_store(anthropic_config, env, auth);
        let ghost base = registry@;
        let active = config.selected_provider_id();
        let mut ids: Vec<&str> = Vec::new();
        let n = config.provider_count();
        let mut i: usize = 0;
        let mut present = false;
        let ghost keys = config.configured_ids();
        while i < n
            invariant
                n == keys.len(),
                keys == config.configured_ids(),
                active@ == config.selected_spec(),
                i <= n,
                ids@.map_values(|s: &str| s@) == keys.take(i as int),
                present == keys.take(i as int).contains(active@),
            decreases n - i,
        {
            let k = config.provider_id_at(i);
            assert(keys[i as int] == k@);
            if str_eq(k, active) {
                present = true;
            }
            ids.push(k);
            proof {
                assert(keys.take(i + 1) =~= keys.take(i as int).push(k@));
                assert(ids@.map_values(|s: &str| s@) =~= keys.take(i + 1));
                if !present {
                    assert forall|j: int| 0 <= j < keys.take(i + 1).len() implies #[trigger] keys.take(
                        i + 1,
                    )[j] != active@ by {
                        if j < i {
                            assert(keys.take(i as int)[j] == keys.take(i + 1)[j]);
                        }
                    }
                } else if keys.take(i as int).contains(active@) {
                    let j = choose|j: int| 0 <= j < keys.take(i as int).len() && keys.take(i as int)[j]
                        == active@;
                    assert(keys.take(i + 1)[j] == active@);
                } else {
                    assert(keys.take(i + 1)[i as int] == active@);
                }
            }
            i = i + 1;
        }
        assert(keys.take(n as int) =~= keys);
        if !present {
            ids.push(active);
        }
        assert(ids@.map_values(|s: &str| s@) =~= config_ids(*config));
        let m = ids.len();
        let mut j: usize = 0;
        assert(config_ids(*config).take(0) =~= Seq::<Seq<char>>::empty());
        while j < m
            invariant
                m == ids@.len(),
                ids@.map_values(|s: &str| s@) == config_ids(*config),
                j <= m,
                registry@ == config_fold(base, *config, config_ids(*config).take(j as int)),
            decreases m - j,
        {
            let id = ids[j];
            assert(config_ids(*config)[j as int] == id@);
            assert(config_ids(*config).take(j + 1).drop_last() =~= config_ids(*config).take(
                j as int,
            ));
            if let Some(p) = provider_from_config(config, id) {
                registry.register(p);
            }
            j = j + 1;
        }
        assert(config_ids(*config).take(m as int) =~= config_ids(*config));
        let default_id = ProviderId::new(active);
        if registry.get(&default_id).is_some() {
            registry.set_default(default_id);
        }
        registry
    }
}

} // verus!
