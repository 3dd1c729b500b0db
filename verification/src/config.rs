//! Inputs the provider registry reads: a snapshot of environment variables,
//! per-provider configuration, and stored credentials.

use vstd::prelude::*;
use vstd::string::*;

use crate::text::str_eq;

verus! {

/// The keys of `keys` in order, each kept at its first occurrence only.
pub open spec fn first_keys(keys: Seq<Seq<char>>) -> Seq<Seq<char>>
    decreases keys.len(),
{
    if keys.len() == 0 {
        Seq::empty()
    } else if keys.drop_last().contains(keys.last()) {
        first_keys(keys.drop_last())
    } else {
        first_keys(keys.drop_last()).push(keys.last())
    }
}

/// The first occurrences hold the same keys.
proof fn lemma_first_keys_contains(keys: Seq<Seq<char>>, x: Seq<char>)
    ensures
        first_keys(keys).contains(x) <==> keys.contains(x),
    decreases keys.len(),
{
    if keys.len() > 0 {
        lemma_first_keys_contains(keys.drop_last(), x);
        let l = keys.len() - 1;
        if keys.contains(x) {
            let k = choose|k: int| 0 <= k < keys.len() && keys[k] == x;
            if k < l {
                assert(keys.drop_last()[k] == x);
            }
        }
        if keys.drop_last().contains(x) {
            let k = choose|k: int| 0 <= k < keys.drop_last().len() && keys.drop_last()[k] == x;
            assert(keys[k] == x);
        }
        if keys.drop_last().contains(keys.last()) {
        } else {
            let f = first_keys(keys.drop_last());
            assert(f.push(keys.last())[f.len() as int] == keys.last());
            if f.contains(x) {
                let k = choose|k: int| 0 <= k < f.len() && f[k] == x;
                assert(f.push(keys.last())[k] == x);
            }
            if f.push(keys.last()).contains(x) && x != keys.last() {
                let k = choose|k: int| 0 <= k < f.len() + 1 && f.push(keys.last())[k] == x;
                assert(f[k] == x);
            }
        }
        assert(keys[l] == keys.last());
    }
}

/// The first value bound to `name` in `vars`.
pub open spec fn env_lookup(vars: Seq<(String, String)>, name: Seq<char>) -> Option<Seq<char>>
    decreases vars.len(),
{
    if vars.len() == 0 {
        None
    } else {
        match env_lookup(vars.drop_last(), name) {
            Some(v) => Some(v),
            None => if vars.last().0@ == name {
                Some(vars.last().1@)
            } else {
                None
            },
        }
    }
}

/// Nothing is bound to `name` exactly when no binding has that name.
proof fn lemma_env_lookup_none(vars: Seq<(String, String)>, name: Seq<char>)
    ensures
        env_lookup(vars, name) is None <==> forall|k: int| 0 <= k < vars.len() ==> vars[k].0@ != name,
    decreases vars.len(),
{
    if vars.len() > 0 {
        lemma_env_lookup_none(vars.drop_last(), name);
        if env_lookup(vars, name) is None {
            assert forall|k: int| 0 <= k < vars.len() implies vars[k].0@ != name by {
                if k < vars.len() - 1 {
                    assert(vars.drop_last()[k] == vars[k]);
                }
            }
        } else if forall|k: int| 0 <= k < vars.len() ==> vars[k].0@ != name {
            assert forall|k: int| 0 <= k < vars.drop_last().len() implies vars.drop_last()[k].0@ != name by {
                assert(vars.drop_last()[k] == vars[k]);
            }
            assert(vars.last() == vars[vars.len() - 1]);
        }
    }
}

proof fn lemma_env_lookup_prefix(vars: Seq<(String, String)>, name: Seq<char>, i: int)
    requires
        0 <= i < vars.len(),
        env_lookup(vars.take(i), name) is None,
    ensures
        env_lookup(vars.take(i + 1), name) == (if vars[i].0@ == name {
            Some(vars[i].1@)
        } else {
            None::<Seq<char>>
        }),
{
    assert(vars.take(i + 1).drop_last() =~= vars.take(i));
}

/// A snapshot of environment variables (name, value); no name is bound
/// twice.
#[derive(Debug)]
pub struct Env {
    pub(crate) vars: Vec<(String, String)>,
}

/// No two bindings in `vars` have the same name.
pub open spec fn distinct_names(vars: Seq<(String, String)>) -> bool {
    forall|i: int, j: int| 0 <= i < j < vars.len() ==> vars[i].0@ != vars[j].0@
}

impl Env {
    #[verifier::type_invariant]
    spec fn names_distinct(&self) -> bool {
        distinct_names(self.vars@)
    }

    /// The value of `name`.
    pub closed spec fn var_spec(&self, name: Seq<char>) -> Option<Seq<char>> {
        env_lookup(self.vars@, name)
    }

    /// Whether `name` is set to a non-empty value.
    pub open spec fn nonempty_spec(&self, name: Seq<char>) -> bool {
        self.var_spec(name) matches Some(v) && v.len() > 0
    }

    /// The environment binding each name of `vars` to the value of its first
    /// binding there.
    pub fn from_vars(vars: Vec<(String, String)>) -> (r: Env)
        ensures
            forall|n: Seq<char>| #[trigger] r.var_spec(n) == env_lookup(vars@, n),
    {
        let mut out: Vec<(String, String)> = Vec::new();
        let mut i: usize = 0;
        while i < vars.len()
            invariant
                i <= vars@.len(),
                distinct_names(out@),
                forall|n: Seq<char>| #[trigger] env_lookup(out@, n) == env_lookup(vars@.take(i as int), n),
            decreases vars@.len() - i,
        {
            let name = &vars[i].0;
            let mut seen = false;
            let mut j: usize = 0;
            while j < out.len()
                invariant
                    j <= out@.len(),
                    seen <==> exists|k: int| 0 <= k < j && out@[k].0@ == name@,
                decreases out@.len() - j,
            {
                if str_eq(out[j].0.as_str(), name.as_str()) {
                    seen = true;
                }
                j = j + 1;
            }
            let ghost before = out@;
            proof {
                lemma_env_lookup_none(before, name@);
                assert(vars@.take(i + 1).drop_last() =~= vars@.take(i as int));
            }
            if !seen {
                assert forall|k: int| 0 <= k < before.len() implies before[k].0@ != name@ by {
                    if before[k].0@ == name@ {
                        assert(0 <= k < j && out@[k].0@ == name@);
                    }
                }
                let key = name.clone();
                let value = vars[i].1.clone();
                out.push((key, value));
                proof {
                    assert(out@.drop_last() =~= before);
                    assert(out@.last().0@ == name@ && out@.last().1@ == vars@[i as int].1@);
                    assert(env_lookup(before, name@) is None);
                    let t = vars@.take(i + 1);
                    assert(t.last() == vars@[i as int]);
                    assert forall|n: Seq<char>| #[trigger]
                        env_lookup(out@, n) == env_lookup(vars@.take(i + 1), n) by {
                        assert(env_lookup(before, n) == env_lookup(vars@.take(i as int), n));
                        assert(env_lookup(out@, n) == match env_lookup(before, n) {
                            Some(v) => Some(v),
                            None => if out@.last().0@ == n {
                                Some(out@.last().1@)
                            } else {
                                None
                            },
                        });
                        assert(env_lookup(t, n) == match env_lookup(t.drop_last(), n) {
                            Some(v) => Some(v),
                            None => if t.last().0@ == n {
                                Some(t.last().1@)
                            } else {
                                None
                            },
                        });
                    }
                }
            } else {
                proof {
                    let k = choose|k: int| 0 <= k < j && out@[k].0@ == name@;
                    assert(before[k].0@ == name@);
                    assert(env_lookup(before, name@) is Some);
                    assert(vars@.take(i + 1).last() == vars@[i as int]);
                    assert forall|n: Seq<char>| #[trigger]
                        env_lookup(out@, n) == env_lookup(vars@.take(i + 1), n) by {
                    }
                }
            }
            i = i + 1;
        }
        proof {
            assert(vars@.take(vars@.len() as int) =~= vars@);
        }
        Env { vars: out }
    }

    /// An environment with no variables.
    pub fn empty() -> (r: Env)
        ensures
            forall|n: Seq<char>| #[trigger] r.var_spec(n) is None,
    {
        Env { vars: Vec::new() }
    }

    /// The value of `name`, if set.
    pub fn var(&self, name: &str) -> (r: Option<&String>)
        ensures
            match r {
                Some(v) => self.var_spec(name@) == Some(v@),
                None => self.var_spec(name@) is None,
            },
    {
        let n = self.vars.len();
        let mut i: usize = 0;
        assert(self.vars@.take(0) =~= Seq::<(String, String)>::empty());
        while i < n
            invariant
                n == self.vars@.len(),
                i <= n,
                env_lookup(self.vars@.take(i as int), name@) is None,
            decreases n - i,
        {
            proof { lemma_env_lookup_prefix(self.vars@, name@, i as int); }
            if str_eq(self.vars[i].0.as_str(), name) {
                proof { lemma_env_lookup_from_prefix(self.vars@, name@, (i + 1) as int); }
                return Some(&self.vars[i].1);
            }
            i = i + 1;
        }
        assert(self.vars@.take(n as int) =~= self.vars@);
        None
    }

    /// Whether `name` is set to a non-empty value.
    pub fn nonempty(&self, name: &str) -> (r: bool)
        ensures
            r == self.nonempty_spec(name@),
    {
        match self.var(name) {
            Some(v) => v.unicode_len() > 0,
            None => false,
        }
    }
}

proof fn lemma_env_lookup_from_prefix(vars: Seq<(String, String)>, name: Seq<char>, k: int)
    requires
        0 <= k <= vars.len(),
        env_lookup(vars.take(k), name) is Some,
    ensures
        env_lookup(vars, name) == env_lookup(vars.take(k), name),
    decreases vars.len() - k,
{
    if k < vars.len() {
        assert(vars.drop_last().take(k) =~= vars.take(k));
        lemma_env_lookup_from_prefix(vars.drop_last(), name, k);
    } else {
        assert(vars.take(k) =~= vars);
    }
}

/// Per-provider configuration, with its key and base URL already resolved
/// (from the settings file or the environment) by the caller.
#[derive(Debug, Clone)]
pub struct ProviderConfig {
    pub enabled: bool,
    pub api_key: Option<String>,
    pub api_base: Option<String>,
}

/// The configuration of provider `id` in `cfgs` (first entry wins).
pub open spec fn config_lookup(cfgs: Seq<(String, ProviderConfig)>, id: Seq<char>) -> Option<
    ProviderConfig,
>
    decreases cfgs.len(),
{
    if cfgs.len() == 0 {
        None
    } else {
        match config_lookup(cfgs.drop_last(), id) {
            Some(c) => Some(c),
            None => if cfgs.last().0@ == id {
                Some(cfgs.last().1)
            } else {
                None
            },
        }
    }
}

/// No configuration for `id` exactly when no entry has that id.
proof fn lemma_config_lookup_none(cfgs: Seq<(String, ProviderConfig)>, id: Seq<char>)
    ensures
        config_lookup(cfgs, id) is None <==> forall|k: int| 0 <= k < cfgs.len() ==> cfgs[k].0@ != id,
    decreases cfgs.len(),
{
    if cfgs.len() > 0 {
        lemma_config_lookup_none(cfgs.drop_last(), id);
        if config_lookup(cfgs, id) is None {
            assert forall|k: int| 0 <= k < cfgs.len() implies cfgs[k].0@ != id by {
                if k < cfgs.len() - 1 {
                    assert(cfgs.drop_last()[k] == cfgs[k]);
                }
            }
        } else if forall|k: int| 0 <= k < cfgs.len() ==> cfgs[k].0@ != id {
            assert forall|k: int| 0 <= k < cfgs.drop_last().len() implies cfgs.drop_last()[k].0@ != id by {
                assert(cfgs.drop_last()[k] == cfgs[k]);
            }
            assert(cfgs.last() == cfgs[cfgs.len() - 1]);
        }
    }
}

proof fn lemma_config_lookup_prefix(cfgs: Seq<(String, ProviderConfig)>, id: Seq<char>, i: int)
    requires
        0 <= i < cfgs.len(),
        config_lookup(cfgs.take(i), id) is None,
    ensures
        config_lookup(cfgs.take(i + 1), id) == (if cfgs[i].0@ == id {
            Some(cfgs[i].1)
        } else {
            None::<ProviderConfig>
        }),
{
    assert(cfgs.take(i + 1).drop_last() =~= cfgs.take(i));
}

proof fn lemma_config_lookup_from_prefix(cfgs: Seq<(String, ProviderConfig)>, id: Seq<char>, k: int)
    requires
        0 <= k <= cfgs.len(),
        config_lookup(cfgs.take(k), id) is Some,
    ensures
        config_lookup(cfgs, id) == config_lookup(cfgs.take(k), id),
    decreases cfgs.len() - k,
{
    if k < cfgs.len() {
        assert(cfgs.drop_last().take(k) =~= cfgs.take(k));
        lemma_config_lookup_from_prefix(cfgs.drop_last(), id, k);
    } else {
        assert(cfgs.take(k) =~= cfgs);
    }
}

/// The variable of the first entry of `table` (variable, provider) for
/// provider `id`.
pub open spec fn var_for_provider(table: Seq<(Seq<char>, Seq<char>)>, id: Seq<char>) -> Option<Seq<char>>
    decreases table.len(),
{
    if table.len() == 0 {
        None
    } else if table[0].1 == id {
        Some(table[0].0)
    } else {
        var_for_provider(table.drop_first(), id)
    }
}

/// The environment variable holding provider `id`'s API key:
/// `ANTHROPIC_API_KEY`, `OPENAI_API_KEY`, or the variable the registry
/// reads for a remote provider (`DEEPSEEK_API_KEY`, `DASHSCOPE_API_KEY` for
/// `qwen`, ...).
pub open spec fn provider_key_var(id: Seq<char>) -> Option<Seq<char>> {
    if id == "anthropic"@ {
        Some("ANTHROPIC_API_KEY"@)
    } else if id == "openai"@ {
        Some("OPENAI_API_KEY"@)
    } else {
        var_for_provider(crate::api::registry::remote_table(), id)
    }
}

/// The environment variable holding provider `id`'s API key.
pub fn provider_key_var_of(id: &str) -> (r: Option<&'static str>)
    ensures
        match r {
            Some(v) => provider_key_var(id@) == Some(v@),
            None => provider_key_var(id@) is None,
        },
{
    if str_eq(id, "anthropic") {
        return Some("ANTHROPIC_API_KEY");
    }
    if str_eq(id, "openai") {
        return Some("OPENAI_API_KEY");
    }
    let table = crate::api::registry::remote_table_exec();
    let ghost t = crate::api::registry::remote_table();
    assert(t.subrange(0, t.len() as int) =~= t);
    assert(t.len() == table@.len());
    let mut i: usize = 0;
    while i < table.len()
        invariant
            i <= table@.len(),
            table@.map_values(|p: (&str, &str)| (p.0@, p.1@)) == t,
            t == crate::api::registry::remote_table(),
            id@ != "anthropic"@ && id@ != "openai"@,
            var_for_provider(t, id@) == var_for_provider(t.subrange(i as int, t.len() as int), id@),
        decreases table@.len() - i,
    {
        let (var, pid) = table[i];
        proof {
            let rest = t.subrange(i as int, t.len() as int);
            assert(rest[0] == t[i as int]);
            assert(t[i as int] == (var@, pid@));
            assert(rest.drop_first() =~= t.subrange(i + 1, t.len() as int));
        }
        if str_eq(pid, id) {
            assert(var_for_provider(t.subrange(i as int, t.len() as int), id@) == Some(var@));
            return Some(var);
        }
        i = i + 1;
    }
    proof {
        assert(t.subrange(table@.len() as int, t.len() as int) =~= Seq::<(Seq<char>, Seq<char>)>::empty());
    }
    None
}

/// No two entries of `cfgs` configure the same provider id.
pub open spec fn distinct_config_ids(cfgs: Seq<(String, ProviderConfig)>) -> bool {
    forall|i: int, j: int| 0 <= i < j < cfgs.len() ==> cfgs[i].0@ != cfgs[j].0@
}

/// A copy of a provider configuration.
fn copy_provider_config(c: &ProviderConfig) -> (r: ProviderConfig)
    ensures
        r == *c,
{
    ProviderConfig {
        enabled: c.enabled,
        api_key: crate::types::copy_opt_string(&c.api_key),
        api_base: crate::types::copy_opt_string(&c.api_base),
    }
}

/// Library configuration as the registry reads it: per-provider settings
/// keyed by provider id (no id configured twice) and the selected provider.
#[derive(Debug)]
pub struct Config {
    /// Per-provider settings, keyed by provider id.
    pub(crate) provider_configs: Vec<(String, ProviderConfig)>,
    /// The selected provider; `anthropic` when unset.
    pub(crate) provider: Option<String>,
    /// The environment the resolver reads provider keys from.
    pub(crate) env: Env,
}

impl Config {
    #[verifier::type_invariant]
    spec fn ids_distinct(&self) -> bool {
        distinct_config_ids(self.provider_configs@)
    }

    /// The configuration of provider `id`.
    pub closed spec fn config_of(&self, id: Seq<char>) -> Option<ProviderConfig> {
        config_lookup(self.provider_configs@, id)
    }

    /// The provider ids configured, in order.
    pub closed spec fn configured_ids(&self) -> Seq<Seq<char>> {
        self.provider_configs@.map_values(|e: (String, ProviderConfig)| e.0@)
    }

    /// The selected provider, when one is set.
    pub closed spec fn provider_spec(&self) -> Option<Seq<char>> {
        match self.provider {
            Some(p) => Some(p@),
            None => None,
        }
    }

    /// The selected provider id.
    pub open spec fn selected_spec(&self) -> Seq<char> {
        match self.provider_spec() {
            Some(p) => p,
            None => "anthropic"@,
        }
    }

    /// A configuration from per-provider settings (the first entry for an
    /// id is the one kept) and the selected provider.
    pub fn new(provider_configs: Vec<(String, ProviderConfig)>, provider: Option<String>) -> (r: Config)
        ensures
            forall|id: Seq<char>| #[trigger] r.config_of(id) == config_lookup(provider_configs@, id),
            r.provider_spec() == match provider {
                Some(p) => Some(p@),
                None => None::<Seq<char>>,
            },
            r.configured_ids() == first_keys(
                provider_configs@.map_values(|e: (String, ProviderConfig)| e.0@),
            ),
    {
        let ghost ids = provider_configs@.map_values(|e: (String, ProviderConfig)| e.0@);
        let mut out: Vec<(String, ProviderConfig)> = Vec::new();
        let mut i: usize = 0;
        while i < provider_configs.len()
            invariant
                i <= provider_configs@.len(),
                distinct_config_ids(out@),
                ids == provider_configs@.map_values(|e: (String, ProviderConfig)| e.0@),
                out@.map_values(|e: (String, ProviderConfig)| e.0@) == first_keys(ids.take(i as int)),
                forall|n: Seq<char>| #[trigger]
                    config_lookup(out@, n) == config_lookup(provider_configs@.take(i as int), n),
            decreases provider_configs@.len() - i,
        {
            let name = &provider_configs[i].0;
            let mut seen = false;
            let mut j: usize = 0;
            while j < out.len()
                invariant
                    j <= out@.len(),
                    seen <==> exists|k: int| 0 <= k < j && out@[k].0@ == name@,
                decreases out@.len() - j,
            {
                if str_eq(out[j].0.as_str(), name.as_str()) {
                    seen = true;
                }
                j = j + 1;
            }
            let ghost before = out@;
            proof {
                lemma_config_lookup_none(before, name@);
                assert(provider_configs@.take(i + 1).drop_last() =~= provider_configs@.take(i as int));
                lemma_first_keys_contains(ids.take(i as int), name@);
                assert(ids.take(i + 1).drop_last() =~= ids.take(i as int));
                assert(ids.take(i + 1).last() == name@);
            }
            let ghost okeys = before.map_values(|e: (String, ProviderConfig)| e.0@);
            let ghost t = provider_configs@.take(i + 1);
            assert(t.last() == provider_configs@[i as int]);
            if !seen {
                assert forall|k: int| 0 <= k < before.len() implies before[k].0@ != name@ by {
                    if before[k].0@ == name@ {
                        assert(0 <= k < j && out@[k].0@ == name@);
                    }
                }
                let key = name.clone();
                let value = copy_provider_config(&provider_configs[i].1);
                out.push((key, value));
                proof {
                    if ids.take(i as int).contains(name@) {
                        let k = choose|k: int| 0 <= k < okeys.len() && okeys[k] == name@;
                        assert(before[k].0@ == name@);
                    }
                    assert(out@.map_values(|e: (String, ProviderConfig)| e.0@) =~= okeys.push(name@));
                    assert(out@.drop_last() =~= before);
                    assert(out@.last().0@ == name@ && out@.last().1 == provider_configs@[i as int].1);
                    assert(config_lookup(before, name@) is None);
                    assert forall|n: Seq<char>| #[trigger]
                        config_lookup(out@, n) == config_lookup(provider_configs@.take(i + 1), n) by {
                        assert(config_lookup(before, n) == config_lookup(provider_configs@.take(i as int), n));
                        assert(config_lookup(out@, n) == match config_lookup(before, n) {
                            Some(v) => Some(v),
                            None => if out@.last().0@ == n {
                                Some(out@.last().1)
                            } else {
                                None
                            },
                        });
                        assert(config_lookup(t, n) == match config_lookup(t.drop_last(), n) {
                            Some(v) => Some(v),
                            None => if t.last().0@ == n {
                                Some(t.last().1)
                            } else {
                                None
                            },
                        });
                    }
                }
            } else {
                proof {
                    let k = choose|k: int| 0 <= k < j && out@[k].0@ == name@;
                    assert(before[k].0@ == name@);
                    assert(okeys[k] == name@);
                    assert(config_lookup(before, name@) is Some);
                }
            }
            i = i + 1;
        }
        proof {
            assert(provider_configs@.take(provider_configs@.len() as int) =~= provider_configs@);
            assert(ids.take(ids.len() as int) =~= ids);
        }
        Config { provider_configs: out, provider, env: Env::empty() }
    }

    /// How many providers are configured.
    pub fn provider_count(&self) -> (r: usize)
        ensures
            r == self.configured_ids().len(),
    {
        self.provider_configs.len()
    }

    /// The id of the `i`-th configured provider.
    pub fn provider_id_at(&self, i: usize) -> (r: &str)
        requires
            i < self.configured_ids().len(),
        ensures
            r@ == self.configured_ids()[i as int],
    {
        self.provider_configs[i].0.as_str()
    }

    /// Whether `self` and `other` hold the same per-provider settings.
    pub closed spec fn same_settings(&self, other: Config) -> bool {
        self.provider_configs == other.provider_configs
    }

    /// The same configuration with `provider` selected.
    pub fn with_provider(self, provider: String) -> (r: Config)
        ensures
            r.same_settings(self),
            forall|id: Seq<char>| #[trigger] r.config_of(id) == self.config_of(id),
            forall|id: Seq<char>| #[trigger] r.api_key_spec(id) == self.api_key_spec(id),
            r.configured_ids() == self.configured_ids(),
            r.provider_spec() == Some(provider@),
            r.env_spec() == self.env_spec(),
    {
        proof { use_type_invariant(&self); }
        Config { provider_configs: self.provider_configs, provider: Some(provider), env: self.env }
    }

    /// The environment the resolver reads provider keys from.
    pub closed spec fn env_spec(&self) -> Env {
        self.env
    }

    /// The same configuration, reading provider keys from `env`.
    pub fn with_env(self, env: Env) -> (r: Config)
        ensures
            r.same_settings(self),
            forall|id: Seq<char>| #[trigger] r.config_of(id) == self.config_of(id),
            r.configured_ids() == self.configured_ids(),
            r.provider_spec() == self.provider_spec(),
            r.env_spec() == env,
    {
        proof { use_type_invariant(&self); }
        Config { provider_configs: self.provider_configs, provider: self.provider, env }
    }

    /// The resolved API key of provider `id`: the key its configuration
    /// stores; else the value of the provider's key variable (see
    /// `provider_key_var`) in the environment, when it is set and not empty.
    pub closed spec fn api_key_spec(&self, id: Seq<char>) -> Option<Seq<char>> {
        let stored = match self.config_of(id) {
            Some(c) => match c.api_key {
                Some(k) => Some(k@),
                None => None,
            },
            None => None,
        };
        match stored {
            Some(k) => Some(k),
            None => match provider_key_var(id) {
                Some(var) => match self.env.var_spec(var) {
                    Some(v) => if v.len() > 0 {
                        Some(v)
                    } else {
                        None
                    },
                    None => None,
                },
                None => None,
            },
        }
    }

    /// The resolved API base URL of provider `id`.
    pub open spec fn api_base_spec(&self, id: Seq<char>) -> Option<Seq<char>> {
        match self.config_of(id) {
            Some(c) => match c.api_base {
                Some(b) => Some(b@),
                None => None,
            },
            None => None,
        }
    }

    /// The configuration of provider `id`, if any.
    pub fn provider_config(&self, id: &str) -> (r: Option<&ProviderConfig>)
        ensures
            match r {
                Some(c) => self.config_of(id@) == Some(*c),
                None => self.config_of(id@) is None,
            },
    {
        let n = self.provider_configs.len();
        let mut i: usize = 0;
        assert(self.provider_configs@.take(0) =~= Seq::<(String, ProviderConfig)>::empty());
        while i < n
            invariant
                n == self.provider_configs@.len(),
                i <= n,
                config_lookup(self.provider_configs@.take(i as int), id@) is None,
            decreases n - i,
        {
            proof { lemma_config_lookup_prefix(self.provider_configs@, id@, i as int); }
            if str_eq(self.provider_configs[i].0.as_str(), id) {
                proof { lemma_config_lookup_from_prefix(self.provider_configs@, id@, (i + 1) as int); }
                return Some(&self.provider_configs[i].1);
            }
            i = i + 1;
        }
        assert(self.provider_configs@.take(n as int) =~= self.provider_configs@);
        None
    }

    /// The selected provider id.
    pub fn selected_provider_id(&self) -> (r: &str)
        ensures
            r@ == self.selected_spec(),
    {
        match &self.provider {
            Some(p) => p.as_str(),
            None => "anthropic",
        }
    }

    /// The resolved API key of provider `id`.
    pub fn resolve_provider_api_key(&self, id: &str) -> (r: Option<String>)
        ensures
            match r {
                Some(k) => self.api_key_spec(id@) == Some(k@),
                None => self.api_key_spec(id@) is None,
            },
    {
        let stored = match self.provider_config(id) {
            Some(c) => match &c.api_key {
                Some(k) => Some(k.clone()),
                None => None,
            },
            None => None,
        };
        match stored {
            Some(k) => Some(k),
            None => match provider_key_var_of(id) {
                Some(var) => match self.env.var(var) {
                    Some(v) => if v.unicode_len() > 0 {
                        Some(v.clone())
                    } else {
                        None
                    },
                    None => None,
                },
                None => None,
            },
        }
    }

    /// The resolved API base URL of provider `id`.
    pub fn resolve_provider_api_base(&self, id: &str) -> (r: Option<String>)
        ensures
            match r {
                Some(b) => self.api_base_spec(id@) == Some(b@),
                None => self.api_base_spec(id@) is None,
            },
    {
        match self.provider_config(id) {
            Some(c) => match &c.api_base {
                Some(b) => Some(b.clone()),
                None => None,
            },
            None => None,
        }
    }
}

/// A stored credential: the provider it belongs to and the API key it
/// yields, when it yields one.
#[derive(Debug, Clone)]
pub struct Credential {
    pub provider_id: String,
    pub api_key: Option<String>,
}

/// Credentials loaded from the persistent auth store, at most one per
/// provider.
#[derive(Debug)]
pub struct AuthStore {
    pub(crate) credentials: Vec<Credential>,
}

/// No two credentials in `creds` belong to the same provider.
pub open spec fn distinct_credentials(creds: Seq<Credential>) -> bool {
    forall|i: int, j: int| 0 <= i < j < creds.len() ==> creds[i].provider_id@ != creds[j].provider_id@
}

/// No stored key for `id` exactly when no credential belongs to `id`.
proof fn lemma_auth_lookup_none(creds: Seq<Credential>, id: Seq<char>)
    ensures
        auth_key_lookup(creds, id) is None <==> forall|k: int|
            0 <= k < creds.len() ==> creds[k].provider_id@ != id,
    decreases creds.len(),
{
    if creds.len() > 0 {
        lemma_auth_lookup_none(creds.drop_last(), id);
        if auth_key_lookup(creds, id) is None {
            assert forall|k: int| 0 <= k < creds.len() implies creds[k].provider_id@ != id by {
                if k < creds.len() - 1 {
                    assert(creds.drop_last()[k] == creds[k]);
                }
            }
        } else if forall|k: int| 0 <= k < creds.len() ==> creds[k].provider_id@ != id {
            assert forall|k: int| 0 <= k < creds.drop_last().len() implies creds.drop_last()[k].provider_id@
                != id by {
                assert(creds.drop_last()[k] == creds[k]);
            }
            assert(creds.last() == creds[creds.len() - 1]);
        }
    }
}

/// The API key stored for `id` (first credential for `id` wins).
pub open spec fn auth_key_lookup(creds: Seq<Credential>, id: Seq<char>) -> Option<Option<
    Seq<char>,
>>
    decreases creds.len(),
{
    if creds.len() == 0 {
        None
    } else {
        match auth_key_lookup(creds.drop_last(), id) {
            Some(k) => Some(k),
            None => if creds.last().provider_id@ == id {
                Some(
                    match creds.last().api_key {
                        Some(k) => Some(k@),
                        None => None,
                    },
                )
            } else {
                None
            },
        }
    }
}

impl AuthStore {
    #[verifier::type_invariant]
    spec fn providers_distinct(&self) -> bool {
        distinct_credentials(self.credentials@)
    }

    /// The API key stored for provider `id`, if any.
    pub closed spec fn api_key_spec(&self, id: Seq<char>) -> Option<Seq<char>> {
        match auth_key_lookup(self.credentials@, id) {
            Some(Some(k)) => Some(k),
            _ => None,
        }
    }

    /// The providers of the stored credentials, in order.
    pub closed spec fn credential_ids(&self) -> Seq<Seq<char>> {
        self.credentials@.map_values(|c: Credential| c.provider_id@)
    }

    /// How many credentials are stored.
    pub fn credential_count(&self) -> (r: usize)
        ensures
            r == self.credential_ids().len(),
    {
        self.credentials.len()
    }

    /// The provider of the `i`-th stored credential.
    pub fn credential_provider_at(&self, i: usize) -> (r: &str)
        requires
            i < self.credential_ids().len(),
        ensures
            r@ == self.credential_ids()[i as int],
    {
        self.credentials[i].provider_id.as_str()
    }

    /// What is stored for provider `id`: nothing without a credential,
    /// else the credential's key, if it has one.
    pub closed spec fn stored(&self, id: Seq<char>) -> Option<Option<Seq<char>>> {
        auth_key_lookup(self.credentials@, id)
    }

    /// A store of `credentials` (the first credential of a provider is the
    /// one kept).
    pub fn new(credentials: Vec<Credential>) -> (r: AuthStore)
        ensures
            forall|id: Seq<char>| #[trigger] r.stored(id) == auth_key_lookup(credentials@, id),
            forall|id: Seq<char>| #[trigger] r.api_key_spec(id) == match auth_key_lookup(credentials@, id) {
                Some(Some(k)) => Some(k),
                _ => None,
            },
            r.credential_ids() == first_keys(credentials@.map_values(|c: Credential| c.provider_id@)),
    {
        let ghost ids = credentials@.map_values(|c: Credential| c.provider_id@);
        let mut out: Vec<Credential> = Vec::new();
        let mut i: usize = 0;
        while i < credentials.len()
            invariant
                i <= credentials@.len(),
                distinct_credentials(out@),
                ids == credentials@.map_values(|c: Credential| c.provider_id@),
                out@.map_values(|c: Credential| c.provider_id@) == first_keys(ids.take(i as int)),
                forall|n: Seq<char>| #[trigger]
                    auth_key_lookup(out@, n) == auth_key_lookup(credentials@.take(i as int), n),
            decreases credentials@.len() - i,
        {
            let name = &credentials[i].provider_id;
            let mut seen = false;
            let mut j: usize = 0;
            while j < out.len()
                invariant
                    j <= out@.len(),
                    seen <==> exists|k: int| 0 <= k < j && out@[k].provider_id@ == name@,
                decreases out@.len() - j,
            {
                if str_eq(out[j].provider_id.as_str(), name.as_str()) {
                    seen = true;
                }
                j = j + 1;
            }
            let ghost before = out@;
            proof {
                lemma_auth_lookup_none(before, name@);
                assert(credentials@.take(i + 1).drop_last() =~= credentials@.take(i as int));
                lemma_first_keys_contains(ids.take(i as int), name@);
                assert(ids.take(i + 1).drop_last() =~= ids.take(i as int));
                assert(ids.take(i + 1).last() == name@);
            }
            let ghost okeys = before.map_values(|c: Credential| c.provider_id@);
            let ghost t = credentials@.take(i + 1);
            assert(t.last() == credentials@[i as int]);
            if !seen {
                assert forall|k: int| 0 <= k < before.len() implies before[k].provider_id@ != name@ by {
                    if before[k].provider_id@ == name@ {
                        assert(0 <= k < j && out@[k].provider_id@ == name@);
                    }
                }
                let c = Credential {
                    provider_id: name.clone(),
                    api_key: crate::types::copy_opt_string(&credentials[i].api_key),
                };
                out.push(c);
                proof {
                    if ids.take(i as int).contains(name@) {
                        let k = choose|k: int| 0 <= k < okeys.len() && okeys[k] == name@;
                        assert(before[k].provider_id@ == name@);
                    }
                    assert(out@.map_values(|c: Credential| c.provider_id@) =~= okeys.push(name@));
                    assert(out@.drop_last() =~= before);
                    assert(out@.last().provider_id@ == name@ && out@.last().api_key
                        == credentials@[i as int].api_key);
                    assert(auth_key_lookup(before, name@) is None);
                    assert forall|n: Seq<char>| #[trigger]
                        auth_key_lookup(out@, n) == auth_key_lookup(credentials@.take(i + 1), n) by {
                        assert(auth_key_lookup(before, n) == auth_key_lookup(credentials@.take(i as int), n));
                    }
                }
            } else {
                proof {
                    let k = choose|k: int| 0 <= k < j && out@[k].provider_id@ == name@;
                    assert(before[k].provider_id@ == name@);
                    assert(okeys[k] == name@);
                    assert(auth_key_lookup(before, name@) is Some);
                }
            }
            i = i + 1;
        }
        proof {
            assert(credentials@.take(credentials@.len() as int) =~= credentials@);
            assert(ids.take(ids.len() as int) =~= ids);
        }
        AuthStore { credentials: out }
    }

    /// The API key stored for provider `id`, if any.
    pub fn api_key_for(&self, id: &str) -> (r: Option<String>)
        ensures
            match r {
                Some(k) => self.api_key_spec(id@) == Some(k@),
                None => self.api_key_spec(id@) is None,
            },
    {
        let n = self.credentials.len();
        let mut i: usize = 0;
        assert(self.credentials@.take(0) =~= Seq::<Credential>::empty());
        while i < n
            invariant
                n == self.credentials@.len(),
                i <= n,
                auth_key_lookup(self.credentials@.take(i as int), id@) is None,
            decreases n - i,
        {
            proof {
                assert(self.credentials@.take(i + 1).drop_last() =~= self.credentials@.take(i as int));
            }
            if str_eq(self.credentials[i].provider_id.as_str(), id) {
                proof { lemma_auth_lookup_from_prefix(self.credentials@, id@, (i + 1) as int); }
                return match &self.credentials[i].api_key {
                    Some(k) => Some(k.clone()),
                    None => None,
                };
            }
            i = i + 1;
        }
        assert(self.credentials@.take(n as int) =~= self.credentials@);
        None
    }
}

proof fn lemma_auth_lookup_from_prefix(creds: Seq<Credential>, id: Seq<char>, k: int)
    requires
        0 <= k <= creds.len(),
        auth_key_lookup(creds.take(k), id) is Some,
    ensures
        auth_key_lookup(creds, id) == auth_key_lookup(creds.take(k), id),
    decreases creds.len() - k,
{
    if k < creds.len() {
        assert(creds.drop_last().take(k) =~= creds.take(k));
        lemma_auth_lookup_from_prefix(creds.drop_last(), id, k);
    } else {
        assert(creds.take(k) =~= creds);
    }
}

} // verus!
