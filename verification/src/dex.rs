//! The aggregator: every pool of every chain in one collection, with the
//! query configuration of each chain, answering lookups by denom, chain and
//! address.

use vstd::prelude::*;
use vstd::string::StringExecFns;
use crate::config::default_configs;
use crate::config::ChainConfigs;
use crate::error::TracyError;
use crate::error::TracyErrorView;
use crate::pools::juno_pool::WasmPool;
use crate::pools::osmosis_pool::OsmosisPool;
use crate::pools::osmosis_pool::OsmosisPoolView;
use crate::query::QuoteStep;
use crate::query::QuoteStepView;
use crate::text::str_eq;
use crate::util::search::first_index;
use crate::util::search::lemma_first_index;
use crate::Pool;
use crate::PoolConfig;
use crate::PoolConfigView;

verus! {

/// A pool of any chain.
#[derive(Debug, PartialEq, Eq)]
pub enum AnyPool {
    /// A pool that can be priced from its reserves and weights.
    Weighted(OsmosisPool),
    /// A pool whose contract has to be asked.
    External(WasmPool),
}

/// An `AnyPool` with the assets of a weighted pool as a sequence.
pub enum AnyPoolView {
    Weighted(OsmosisPoolView),
    External(WasmPool),
}

impl View for AnyPool {
    type V = AnyPoolView;

    open spec fn view(&self) -> AnyPoolView {
        match *self {
            AnyPool::Weighted(pool) => AnyPoolView::Weighted(pool@),
            AnyPool::External(pool) => AnyPoolView::External(pool),
        }
    }
}

impl Clone for AnyPool {
    fn clone(&self) -> (copy: AnyPool)
        ensures
            copy@ == self@,
    {
        match self {
            AnyPool::Weighted(pool) => AnyPool::Weighted(pool.clone()),
            AnyPool::External(pool) => AnyPool::External(pool.clone()),
        }
    }
}

impl Pool for AnyPool {
    open spec fn spec_token_denoms(&self) -> Seq<Seq<char>> {
        match *self {
            AnyPool::Weighted(pool) => pool.spec_token_denoms(),
            AnyPool::External(pool) => pool.spec_token_denoms(),
        }
    }

    open spec fn spec_chain(&self) -> Seq<char> {
        match *self {
            AnyPool::Weighted(pool) => pool.spec_chain(),
            AnyPool::External(pool) => pool.spec_chain(),
        }
    }

    open spec fn spec_address(&self) -> Option<Seq<char>> {
        match *self {
            AnyPool::Weighted(pool) => pool.spec_address(),
            AnyPool::External(pool) => pool.spec_address(),
        }
    }

    open spec fn spec_get_quote(
        &self,
        amount: u128,
        token_in: Seq<char>,
        token_out: Seq<char>,
        config: PoolConfigView,
    ) -> Result<QuoteStepView, TracyErrorView> {
        match *self {
            AnyPool::Weighted(pool) => pool.spec_get_quote(amount, token_in, token_out, config),
            AnyPool::External(pool) => pool.spec_get_quote(amount, token_in, token_out, config),
        }
    }

    fn get_quote(
        &self,
        amount: u128,
        token_in_denom: &str,
        token_out_denom: &str,
        config: &PoolConfig,
    ) -> (r: Result<QuoteStep, TracyError>) {
        match self {
            AnyPool::Weighted(pool) => pool.get_quote(
                amount,
                token_in_denom,
                token_out_denom,
                config,
            ),
            AnyPool::External(pool) => pool.get_quote(
                amount,
                token_in_denom,
                token_out_denom,
                config,
            ),
        }
    }

    fn token_denoms(&self) -> (denoms: Vec<String>) {
        match self {
            AnyPool::Weighted(pool) => pool.token_denoms(),
            AnyPool::External(pool) => pool.token_denoms(),
        }
    }

    fn has_denom(&self, denom: &str) -> (yes: bool) {
        match self {
            AnyPool::Weighted(pool) => pool.has_denom(denom),
            AnyPool::External(pool) => pool.has_denom(denom),
        }
    }

    fn chain(&self) -> (tag: String) {
        match self {
            AnyPool::Weighted(pool) => pool.chain(),
            AnyPool::External(pool) => pool.chain(),
        }
    }

    fn address(&self) -> (r: Result<String, TracyError>) {
        match self {
            AnyPool::Weighted(pool) => pool.address(),
            AnyPool::External(pool) => pool.address(),
        }
    }
}

impl AnyPool {
    /// Whether the pool is found under `denom`.
    pub open spec fn lists(&self, denom: Seq<char>) -> bool {
        self.spec_token_denoms().contains(denom)
    }

    /// Whether the pool is found under every one of `denoms`.
    pub open spec fn lists_all(&self, denoms: Seq<String>) -> bool {
        forall|j: int| 0 <= j < denoms.len() ==> self.lists((#[trigger] denoms[j])@)
    }

    /// Whether the pool lives on `chain`.
    pub open spec fn lives_on(&self, chain: Seq<char>) -> bool {
        self.spec_chain() == chain
    }

    /// Whether `address` identifies the pool.
    pub open spec fn is_at(&self, address: Seq<char>) -> bool {
        self.spec_address() == Some(address)
    }

    /// Whether the pool is found under every one of `denoms`.
    pub fn has_denoms(&self, denoms: &Vec<String>) -> (yes: bool)
        ensures
            yes == self.lists_all(denoms@),
    {
        let mut j: usize = 0;
        while j < denoms.len()
            invariant
                j <= denoms.len(),
                forall|k: int| 0 <= k < j ==> self.lists((#[trigger] denoms@[k])@),
            decreases denoms.len() - j,
        {
            if !self.has_denom(denoms[j].as_str()) {
                return false;
            }
            j += 1;
        }
        true
    }

    /// Whether the pool lives on `chain`.
    pub fn on_chain(&self, chain: &str) -> (yes: bool)
        ensures
            yes == self.lives_on(chain@),
    {
        str_eq(self.chain().as_str(), chain)
    }

    /// Whether `address` identifies the pool.
    pub fn at_address(&self, address: &str) -> (yes: bool)
        ensures
            yes == self.is_at(address@),
    {
        match self.address() {
            Ok(own) => str_eq(own.as_str(), address),
            Err(_) => false,
        }
    }
}

/// The views of a sequence of pools.
pub open spec fn pool_views(pools: Seq<AnyPool>) -> Seq<AnyPoolView> {
    pools.map_values(|pool: AnyPool| pool@)
}

/// Pushing a pool onto a list pushes its view onto the views.
proof fn lemma_pool_views_push(pools: Seq<AnyPool>, pool: AnyPool)
    ensures
        pool_views(pools.push(pool)) == pool_views(pools).push(pool@),
{
}

/// The pools of both chains in one sequence: the weighted pools first.
pub open spec fn all_pools(osmo_pools: Seq<OsmosisPool>, juno_pools: Seq<WasmPool>) -> Seq<
    AnyPool,
> {
    osmo_pools.map_values(|pool: OsmosisPool| AnyPool::Weighted(pool)) + juno_pools.map_values(
        |pool: WasmPool| AnyPool::External(pool),
    )
}

/// No two pools of one chain have the same address.
pub open spec fn addresses_distinct(pools: Seq<AnyPool>) -> bool {
    forall|i: int, j: int|
        0 <= i < j < pools.len() && (#[trigger] pools[i]).spec_chain() == (
        #[trigger] pools[j]).spec_chain() && pools[i].spec_address() is Some
            ==> pools[i].spec_address() != pools[j].spec_address()
}

/// The position of the first pool that `address` identifies.
pub open spec fn position_of_address(pools: Seq<AnyPool>, address: Seq<char>) -> Option<int> {
    first_index(pools, |pool: AnyPool| pool.is_at(address))
}

/// What a lookup asks of a pool.
enum Wanted<'a> {
    Denom(&'a str),
    Denoms(&'a Vec<String>),
    Chain(&'a str),
}

impl<'a> Wanted<'a> {
    /// Whether the pool is one that the lookup asks for.
    spec fn accepts(self, pool: AnyPool) -> bool {
        match self {
            Wanted::Denom(denom) => pool.lists(denom@),
            Wanted::Denoms(denoms) => pool.lists_all(denoms@),
            Wanted::Chain(chain) => pool.lives_on(chain@),
        }
    }

    /// Whether the pool is one that the lookup asks for.
    fn test(&self, pool: &AnyPool) -> (yes: bool)
        ensures
            yes == self.accepts(*pool),
    {
        match self {
            Wanted::Denom(denom) => pool.has_denom(denom),
            Wanted::Denoms(denoms) => pool.has_denoms(denoms),
            Wanted::Chain(chain) => pool.on_chain(chain),
        }
    }
}

/// Copies of the pools that a lookup asks for, in their order.
fn select(pools: &Vec<AnyPool>, wanted: &Wanted) -> (found: Vec<AnyPool>)
    ensures
        pool_views(found@) == pool_views(pools@.filter(|pool: AnyPool| wanted.accepts(pool))),
{
    let ghost accepts = |pool: AnyPool| wanted.accepts(pool);
    let mut found: Vec<AnyPool> = Vec::new();
    let mut i: usize = 0;
    assert(pools@.take(0).filter(accepts) =~= Seq::<AnyPool>::empty()) by {
        reveal(Seq::filter);
    }
    while i < pools.len()
        invariant
            i <= pools.len(),
            accepts == |pool: AnyPool| wanted.accepts(pool),
            pool_views(found@) == pool_views(pools@.take(i as int).filter(accepts)),
        decreases pools.len() - i,
    {
        proof {
            assert(pools@.take(i + 1) =~= pools@.take(i as int).push(pools@[i as int]));
            pools@.take(i as int).lemma_filter_push(pools@[i as int], accepts);
        }
        if wanted.test(&pools[i]) {
            let ghost before = found@;
            found.push(pools[i].clone());
            proof {
                lemma_pool_views_push(before, found@[found@.len() - 1]);
                lemma_pool_views_push(pools@.take(i as int).filter(accepts), pools@[i as int]);
            }
        }
        i += 1;
    }
    assert(pools@.take(pools.len() as int) =~= pools@);
    found
}

/// Wraps the pools of both chains into one list: the weighted pools first.
fn gather(osmo_pools: Vec<OsmosisPool>, juno_pools: Vec<WasmPool>) -> (pools: Vec<AnyPool>)
    ensures
        pools@ == all_pools(osmo_pools@, juno_pools@),
{
    let ghost weighted = osmo_pools@.map_values(|pool: OsmosisPool| AnyPool::Weighted(pool));
    let ghost external = juno_pools@.map_values(|pool: WasmPool| AnyPool::External(pool));
    let mut pools: Vec<AnyPool> = Vec::new();
    for pool in iter: osmo_pools
        invariant
            iter.seq() == osmo_pools@,
            weighted == osmo_pools@.map_values(|pool: OsmosisPool| AnyPool::Weighted(pool)),
            pools@ == weighted.take(iter.index() as int),
    {
        pools.push(AnyPool::Weighted(pool));
    }
    for pool in iter: juno_pools
        invariant
            iter.seq() == juno_pools@,
            external == juno_pools@.map_values(|pool: WasmPool| AnyPool::External(pool)),
            pools@ == weighted + external.take(iter.index() as int),
    {
        pools.push(AnyPool::External(pool));
    }
    pools
}

/// The aggregator. Its pools are set when it is built and change only when
/// it is rebuilt as a whole.
pub struct DexAgg {
    pools: Vec<AnyPool>,
    config: ChainConfigs,
}

impl DexAgg {
    /// The pools, in the order in which they were loaded.
    pub closed spec fn spec_pools(&self) -> Seq<AnyPool> {
        self.pools@
    }

    /// The query configuration of each chain.
    pub closed spec fn spec_config(&self) -> Map<Seq<char>, PoolConfigView> {
        self.config@
    }

    /// Builds the aggregator from the pools of each chain as they were read
    /// from their snapshots, with the supplied configuration or, where none
    /// is supplied, with the default one.
    pub fn new(
        osmo_pools: Vec<OsmosisPool>,
        juno_pools: Vec<WasmPool>,
        config: Option<ChainConfigs>,
    ) -> (agg: DexAgg)
        ensures
            agg.spec_pools() == all_pools(osmo_pools@, juno_pools@),
            agg.spec_config() == match config {
                Some(supplied) => supplied@,
                None => default_configs(),
            },
    {
        let config = match config {
            Some(supplied) => supplied,
            None => ChainConfigs::defaults(),
        };
        DexAgg { pools: gather(osmo_pools, juno_pools), config }
    }

    /// Replaces all pools at once by those of fresh snapshots. The
    /// configuration stays.
    pub fn rebuild(&mut self, osmo_pools: Vec<OsmosisPool>, juno_pools: Vec<WasmPool>)
        ensures
            final(self).spec_pools() == all_pools(osmo_pools@, juno_pools@),
            final(self).spec_config() == old(self).spec_config(),
    {
        self.pools = gather(osmo_pools, juno_pools);
    }

    /// Whether no two pools of one chain have the same address, as it
    /// should be of pools that come from snapshots. The cost grows with the
    /// square of the number of pools.
    pub fn has_distinct_addresses(&self) -> (yes: bool)
        ensures
            yes == addresses_distinct(self.spec_pools()),
    {
        let mut j: usize = 0;
        while j < self.pools.len()
            invariant
                j <= self.pools.len(),
                addresses_distinct(self.pools@.take(j as int)),
            decreases self.pools.len() - j,
        {
            let later = &self.pools[j];
            let mut i: usize = 0;
            while i < j
                invariant
                    i <= j < self.pools.len(),
                    later == &self.pools@[j as int],
                    forall|k: int|
                        0 <= k < i && (#[trigger] self.pools@[k]).spec_chain() == later.spec_chain()
                            && self.pools@[k].spec_address() is Some ==> self.pools@[k].spec_address()
                            != later.spec_address(),
                decreases j - i,
            {
                let earlier = &self.pools[i];
                if let Ok(address) = earlier.address() {
                    if later.at_address(address.as_str()) && earlier.on_chain(
                        later.chain().as_str(),
                    ) {
                        return false;
                    }
                }
                i += 1;
            }
            proof {
                let before = self.pools@.take(j as int);
                let upto = self.pools@.take(j + 1);
                assert forall|a: int, b: int|
                    0 <= a < b < upto.len() && (#[trigger] upto[a]).spec_chain() == (
                    #[trigger] upto[b]).spec_chain() && upto[a].spec_address() is Some implies upto[a].spec_address()
                    != upto[b].spec_address() by {
                    if b < j {
                        assert(upto[a] == before[a] && upto[b] == before[b]);
                    }
                }
            }
            j += 1;
        }
        assert(self.pools@.take(self.pools.len() as int) =~= self.pools@);
        true
    }

    /// The pools, in the order in which they were loaded.
    pub fn pools(&self) -> (pools: &Vec<AnyPool>)
        ensures
            pools@ == self.spec_pools(),
    {
        &self.pools
    }

    /// The query configuration of each chain.
    pub fn config(&self) -> (config: &ChainConfigs)
        ensures
            config@ == self.spec_config(),
    {
        &self.config
    }

    /// Copies of the pools that are found under `denom`, in their order.
    pub fn with_denom(&self, denom: &str) -> (found: Vec<AnyPool>)
        ensures
            pool_views(found@) == pool_views(
                self.spec_pools().filter(|pool: AnyPool| pool.lists(denom@)),
            ),
    {
        let wanted = Wanted::Denom(denom);
        proof {
            let by_filter = |pool: AnyPool| wanted.accepts(pool);
            let by_denom = |pool: AnyPool| pool.lists(denom@);
            assert(by_filter =~= by_denom);
        }
        select(&self.pools, &wanted)
    }

    /// Copies of the pools that are found under every one of `denoms`, in
    /// their order. A pool that lacks one of them is never among them.
    pub fn with_denoms(&self, denoms: Vec<String>) -> (found: Vec<AnyPool>)
        ensures
            pool_views(found@) == pool_views(
                self.spec_pools().filter(|pool: AnyPool| pool.lists_all(denoms@)),
            ),
            forall|k: int, j: int|
                0 <= k < found@.len() && 0 <= j < denoms@.len() ==> (#[trigger] found@[k]).lists(
                    (#[trigger] denoms@[j])@,
                ),
    {
        let wanted = Wanted::Denoms(&denoms);
        proof {
            let by_filter = |pool: AnyPool| wanted.accepts(pool);
            let by_denoms = |pool: AnyPool| pool.lists_all(denoms@);
            assert(by_filter =~= by_denoms);
        }
        let found = select(&self.pools, &wanted);
        proof {
            let by_denoms = |pool: AnyPool| pool.lists_all(denoms@);
            let kept = self.spec_pools().filter(by_denoms);
            assert(pool_views(found@).len() == found@.len());
            assert forall|k: int, j: int|
                0 <= k < found@.len() && 0 <= j < denoms@.len() implies (#[trigger] found@[k]).lists(
                (#[trigger] denoms@[j])@,
            ) by {
                assert(pool_views(found@)[k] == pool_views(kept)[k]);
                self.spec_pools().lemma_filter_pred(by_denoms, k);
                lemma_same_view_same_denoms(found@[k], kept[k]);
            }
        }
        found
    }

    /// A copy of the first pool that `addr` identifies.
    pub fn with_address(&self, addr: &str) -> (r: Result<AnyPool, TracyError>)
        ensures
            match r {
                Ok(pool) => position_of_address(self.spec_pools(), addr@) matches Some(i) && pool@
                    == self.spec_pools()[i]@,
                Err(error) => position_of_address(self.spec_pools(), addr@) is None && error@ == (
                TracyErrorView::AddressNotFound { address: addr@ }),
            },
    {
        let mut i: usize = 0;
        while i < self.pools.len()
            invariant
                i <= self.pools.len(),
                forall|j: int| 0 <= j < i ==> !(#[trigger] self.pools@[j]).is_at(addr@),
            decreases self.pools.len() - i,
        {
            if self.pools[i].at_address(addr) {
                proof {
                    lemma_first_index(self.pools@, |pool: AnyPool| pool.is_at(addr@));
                }
                return Ok(self.pools[i].clone());
            }
            i += 1;
        }
        proof {
            lemma_first_index(self.pools@, |pool: AnyPool| pool.is_at(addr@));
        }
        Err(TracyError::AddressNotFound { address: String::from_str(addr) })
    }

    /// Copies of the pools that live on `chain`, in their order.
    pub fn with_chain(&self, chain: &str) -> (found: Vec<AnyPool>)
        ensures
            pool_views(found@) == pool_views(
                self.spec_pools().filter(|pool: AnyPool| pool.lives_on(chain@)),
            ),
    {
        let wanted = Wanted::Chain(chain);
        proof {
            let by_filter = |pool: AnyPool| wanted.accepts(pool);
            let by_chain = |pool: AnyPool| pool.lives_on(chain@);
            assert(by_filter =~= by_chain);
        }
        select(&self.pools, &wanted)
    }
}

/// Where no two pools of one chain have the same address, the pool that
/// `with_address` finds is the only one with that address on its chain.
pub proof fn lemma_address_identifies(pools: Seq<AnyPool>, address: Seq<char>, other: int)
    requires
        addresses_distinct(pools),
        position_of_address(pools, address) is Some,
        0 <= other < pools.len(),
        pools[other].is_at(address),
        pools[other].spec_chain() == pools[position_of_address(pools, address)->0].spec_chain(),
    ensures
        other == position_of_address(pools, address)->0,
{
    lemma_first_index(pools, |pool: AnyPool| pool.is_at(address));
}

/// Lookups go by what the pools hold: two collections of pools with the
/// same views, such as a collection and what was reloaded from its
/// snapshot, give the same pools for every denom.
pub proof fn lemma_lookup_by_content(first: Seq<AnyPool>, second: Seq<AnyPool>, denom: Seq<char>)
    requires
        pool_views(first) == pool_views(second),
    ensures
        pool_views(first.filter(|pool: AnyPool| pool.lists(denom))) == pool_views(
            second.filter(|pool: AnyPool| pool.lists(denom)),
        ),
    decreases first.len(),
{
    let wanted = |pool: AnyPool| pool.lists(denom);
    reveal(Seq::filter);
    if first.len() > 0 {
        assert(pool_views(first.drop_last()) =~= pool_views(first).drop_last());
        assert(pool_views(second.drop_last()) =~= pool_views(second).drop_last());
        lemma_lookup_by_content(first.drop_last(), second.drop_last(), denom);
        assert(first.last()@ == pool_views(first)[first.len() - 1]);
        lemma_same_view_same_denoms(first.last(), second.last());
        lemma_pool_views_push(first.drop_last().filter(wanted), first.last());
        lemma_pool_views_push(second.drop_last().filter(wanted), second.last());
    }
}

/// The views of a sequence of weighted pools.
pub open spec fn weighted_views(pools: Seq<OsmosisPool>) -> Seq<OsmosisPoolView> {
    pools.map_values(|pool: OsmosisPool| pool@)
}

/// An aggregator that is built again from pools with the same content, as
/// they come back from a snapshot that was written from them, finds the
/// same pools under every denom: the lookups of the two give pools with
/// the same views, in the same order.
pub proof fn lemma_rebuilt_lookup(
    osmo_pools: Seq<OsmosisPool>,
    juno_pools: Seq<WasmPool>,
    reloaded_osmo_pools: Seq<OsmosisPool>,
    reloaded_juno_pools: Seq<WasmPool>,
    denom: Seq<char>,
)
    requires
        weighted_views(osmo_pools) == weighted_views(reloaded_osmo_pools),
        juno_pools == reloaded_juno_pools,
    ensures
        pool_views(all_pools(osmo_pools, juno_pools).filter(|pool: AnyPool| pool.lists(denom)))
            == pool_views(
            all_pools(reloaded_osmo_pools, reloaded_juno_pools).filter(
                |pool: AnyPool| pool.lists(denom),
            ),
        ),
{
    let first = all_pools(osmo_pools, juno_pools);
    let second = all_pools(reloaded_osmo_pools, reloaded_juno_pools);
    assert(osmo_pools.len() == weighted_views(osmo_pools).len());
    assert(reloaded_osmo_pools.len() == weighted_views(reloaded_osmo_pools).len());
    assert(pool_views(first) =~= pool_views(second)) by {
        assert forall|i: int| 0 <= i < first.len() implies pool_views(first)[i] == pool_views(
            second,
        )[i] by {
            assert(first.len() == second.len());
            assert(pool_views(first)[i] == first[i]@);
            assert(pool_views(second)[i] == second[i]@);
            if i < osmo_pools.len() {
                assert(weighted_views(osmo_pools)[i] == osmo_pools[i]@);
                assert(weighted_views(reloaded_osmo_pools)[i] == reloaded_osmo_pools[i]@);
                assert(first[i] == AnyPool::Weighted(osmo_pools[i]));
                assert(second[i] == AnyPool::Weighted(reloaded_osmo_pools[i]));
            } else {
                assert(first[i] == AnyPool::External(juno_pools[i - osmo_pools.len()]));
                assert(second[i] == AnyPool::External(juno_pools[i - osmo_pools.len()]));
            }
        }
    }
    lemma_lookup_by_content(first, second, denom);
}

/// Two pools with the same view are found under the same denoms, live on
/// the same chain and have the same address.
pub proof fn lemma_same_view_same_denoms(a: AnyPool, b: AnyPool)
    requires
        a@ == b@,
    ensures
        a.spec_token_denoms() == b.spec_token_denoms(),
        a.spec_chain() == b.spec_chain(),
        a.spec_address() == b.spec_address(),
{
}

} // verus!
