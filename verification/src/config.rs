//! The query configuration of each chain, by chain tag.

use vstd::prelude::*;
use vstd::hash_map::StringHashMap;
use vstd::string::StringExecFns;
use crate::PoolConfig;
use crate::PoolConfigView;

verus! {

/// The configurations of all chains, in a hash map keyed by chain tag.
/// Registering a chain again replaces what was registered for it.
pub struct ChainConfigs {
    entries: StringHashMap<PoolConfig>,
}

/// The view of a configuration.
pub open spec fn config_view(config: PoolConfig) -> PoolConfigView {
    config@
}

/// The configuration that is registered for every chain unless the caller
/// supplies another: estimates for both chains, and the public REST node of
/// Juno.
pub open spec fn default_configs() -> Map<Seq<char>, PoolConfigView> {
    Map::<Seq<char>, PoolConfigView>::empty().insert(
        "osmosis"@,
        PoolConfigView { grpc_url: None, rest_url: None, rpc_url: None, estimate_quote: true },
    ).insert(
        "juno"@,
        PoolConfigView {
            grpc_url: None,
            rest_url: Some("https://lcd-juno.itastakers.com"@),
            rpc_url: None,
            estimate_quote: true,
        },
    )
}

impl View for ChainConfigs {
    type V = Map<Seq<char>, PoolConfigView>;

    closed spec fn view(&self) -> Map<Seq<char>, PoolConfigView> {
        self.entries@.map_values(|config: PoolConfig| config_view(config))
    }
}

impl ChainConfigs {
    /// No configuration at all.
    pub fn new() -> (configs: ChainConfigs)
        ensures
            configs@ == Map::<Seq<char>, PoolConfigView>::empty(),
    {
        let configs = ChainConfigs { entries: StringHashMap::new() };
        assert(configs@ =~= Map::<Seq<char>, PoolConfigView>::empty());
        configs
    }

    /// Registers `config` for `chain`, in place of what was registered for
    /// it before.
    pub fn insert(&mut self, chain: String, config: PoolConfig)
        ensures
            final(self)@ == old(self)@.insert(chain@, config@),
    {
        let ghost before = self.entries@;
        self.entries.insert(chain, config);
        assert(self@ =~= before.map_values(|config: PoolConfig| config_view(config)).insert(
            chain@,
            config@,
        ));
    }

    /// The configuration that is registered for `chain`.
    pub fn get(&self, chain: &str) -> (found: Option<&PoolConfig>)
        ensures
            match found {
                Some(config) => self@.contains_key(chain@) && self@[chain@] == config@,
                None => !self@.contains_key(chain@),
            },
    {
        self.entries.get(chain)
    }

    /// The configuration that is registered for every chain unless the
    /// caller supplies another.
    pub fn defaults() -> (configs: ChainConfigs)
        ensures
            configs@ == default_configs(),
    {
        let mut configs = ChainConfigs::new();
        configs.insert(
            String::from_str("osmosis"),
            PoolConfig { grpc_url: None, rest_url: None, rpc_url: None, estimate_quote: true },
        );
        configs.insert(
            String::from_str("juno"),
            PoolConfig {
                grpc_url: None,
                rest_url: Some(String::from_str("https://lcd-juno.itastakers.com")),
                rpc_url: None,
                estimate_quote: true,
            },
        );
        configs
    }
}

} // verus!
