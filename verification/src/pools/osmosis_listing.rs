//! What the job that lists the pools of the Osmosis chain decides between
//! its calls to the chain: which base denom each asset of a pool resolves
//! to, and which trace has to be looked up before the pool can be listed.

use vstd::prelude::*;
use vstd::string::StringExecFns;
use crate::pools::osmosis_pool::OsmosisPool;
use crate::pools::osmosis_pool::OsmosisPoolAssets;
use crate::util::denom_trace::cache_position;
use crate::util::denom_trace::denom_is_hashed;
use crate::util::denom_trace::denom_trace_cache_contains;
use crate::util::denom_trace::is_hashed;
use crate::util::denom_trace::lemma_cache_position;
use crate::util::denom_trace::needs_lookup;
use crate::util::denom_trace::DenomTraceCache;
use crate::util::search::first_index;
use crate::util::search::lemma_first_index;

verus! {

/// The address at which the node `lcd_api` lists the pools of the chain.
pub open spec fn pools_url(lcd_api: Seq<char>) -> Seq<char> {
    lcd_api + "/osmosis/gamm/v1beta1/pools?pagination.limit=1000"@
}

/// The address at which the node `lcd_api` lists the pools of the chain.
pub fn pools_listing_url(lcd_api: &str) -> (url: String)
    ensures
        url@ == pools_url(lcd_api@),
{
    let mut url = String::from_str(lcd_api);
    url.append("/osmosis/gamm/v1beta1/pools?pagination.limit=1000");
    url
}

/// The base denom that `denom` resolves to with the cache alone: itself
/// where it is no hash, what the cache holds for it where it is one, and
/// none where the cache lacks it.
pub open spec fn cached_base(cache: Seq<DenomTraceCache>, denom: Seq<char>) -> Option<Seq<char>> {
    if !is_hashed(denom) {
        Some(denom)
    } else {
        match cache_position(cache, denom) {
            Some(i) => Some(cache[i].trace.base_denom@),
            None => None,
        }
    }
}

/// Whether the denom of an asset cannot be resolved without a lookup.
pub open spec fn is_unresolved(asset: OsmosisPoolAssets, cache: Seq<DenomTraceCache>) -> bool {
    needs_lookup(cache, asset.token.denom@)
}

/// The position of the first asset whose denom needs a lookup.
pub open spec fn first_unresolved(assets: Seq<OsmosisPoolAssets>, cache: Seq<DenomTraceCache>) -> Option<
    int,
> {
    first_index(assets, |asset: OsmosisPoolAssets| is_unresolved(asset, cache))
}

/// Whether `listed` is `asset` with the base denom that the cache gives for
/// its denom.
pub open spec fn is_resolved_asset(
    listed: OsmosisPoolAssets,
    asset: OsmosisPoolAssets,
    cache: Seq<DenomTraceCache>,
) -> bool {
    &&& listed.token.denom == asset.token.denom
    &&& listed.token.amount == asset.token.amount
    &&& listed.weight == asset.weight
    &&& listed.decimals == asset.decimals
    &&& listed.token.native_name.deep_view() == cached_base(cache, asset.token.denom@)
}

/// Whether `listed` is `pool` as a snapshot lists it: the same pool with
/// every asset resolved from the cache, on the chain `osmosis`.
pub open spec fn is_listing_of(
    listed: OsmosisPool,
    pool: OsmosisPool,
    cache: Seq<DenomTraceCache>,
) -> bool {
    &&& listed.pool_address == pool.pool_address
    &&& listed.id == pool.id
    &&& listed.pool_params == pool.pool_params
    &&& listed.future_pool_governor == pool.future_pool_governor
    &&& listed.total_shares == pool.total_shares
    &&& listed.total_weight == pool.total_weight
    &&& listed.chain.deep_view() == Some("osmosis"@)
    &&& listed.pool_assets@.len() == pool.pool_assets@.len()
    &&& forall|k: int|
        0 <= k < pool.pool_assets@.len() ==> is_resolved_asset(
            #[trigger] listed.pool_assets@[k],
            pool.pool_assets@[k],
            cache,
        )
}

/// Where the listing of a pool stands.
#[derive(Debug, PartialEq, Eq)]
pub enum PoolListing {
    /// Every asset is resolved: this is the pool to list.
    Listed(OsmosisPool),
    /// The trace of `denom` has to be looked up and put into the cache
    /// before `pool`, which is handed back as it came, can be listed.
    Unresolved { pool: OsmosisPool, denom: String },
}

/// The base denom that `denom` resolves to with the cache alone.
pub fn base_from_cache(cache: &Vec<DenomTraceCache>, denom: &str) -> (base: Option<String>)
    ensures
        base.deep_view() == cached_base(cache@, denom@),
{
    if !denom_is_hashed(denom) {
        return Some(String::from_str(denom));
    }
    match denom_trace_cache_contains(cache, denom) {
        Some(entry) => Some(entry.trace.base_denom.clone()),
        None => None,
    }
}

/// Lists a pool with what the cache knows. Where the denoms of all assets
/// resolve from the cache, the pool is listed with their base denoms.
/// Otherwise the first denom that needs a lookup is named and the pool is
/// handed back: once the trace is in the cache, the pool can be listed
/// again.
pub fn list_pool(pool: OsmosisPool, cache: &Vec<DenomTraceCache>) -> (listing: PoolListing)
    ensures
        match first_unresolved(pool.pool_assets@, cache@) {
            Some(k) => listing matches PoolListing::Unresolved { pool: same, denom } && same
                == pool && denom@ == pool.pool_assets@[k].token.denom@,
            None => listing matches PoolListing::Listed(listed) && is_listing_of(
                listed,
                pool,
                cache@,
            ),
        },
{
    let ghost assets = pool.pool_assets@;
    let mut bases: Vec<String> = Vec::new();
    let mut k: usize = 0;
    while k < pool.pool_assets.len()
        invariant
            k <= pool.pool_assets.len(),
            assets == pool.pool_assets@,
            bases@.len() == k,
            forall|j: int| 0 <= j < k ==> !is_unresolved(#[trigger] assets[j], cache@),
            forall|j: int|
                0 <= j < k ==> Some((#[trigger] bases@[j])@) == cached_base(
                    cache@,
                    assets[j].token.denom@,
                ),
        decreases pool.pool_assets.len() - k,
    {
        proof {
            lemma_cache_position(cache@, assets[k as int].token.denom@);
        }
        match base_from_cache(cache, pool.pool_assets[k].token.denom.as_str()) {
            Some(base) => {
                bases.push(base);
            },
            None => {
                proof {
                    lemma_first_index(
                        assets,
                        |asset: OsmosisPoolAssets| is_unresolved(asset, cache@),
                    );
                }
                let denom = pool.pool_assets[k].token.denom.clone();
                return PoolListing::Unresolved { pool, denom };
            },
        }
        k += 1;
    }
    proof {
        lemma_first_index(assets, |asset: OsmosisPoolAssets| is_unresolved(asset, cache@));
    }
    let OsmosisPool {
        pool_address,
        id,
        pool_params,
        future_pool_governor,
        total_shares,
        pool_assets,
        total_weight,
        chain: _,
    } = pool;
    let mut listed: Vec<OsmosisPoolAssets> = Vec::new();
    let mut i: usize = 0;
    for asset in iter: pool_assets
        invariant
            iter.seq() == assets,
            assets.len() <= usize::MAX,
            bases@.len() == assets.len(),
            i == iter.index(),
            listed@.len() == i,
            forall|j: int|
                0 <= j < assets.len() ==> Some((#[trigger] bases@[j])@) == cached_base(
                    cache@,
                    assets[j].token.denom@,
                ),
            forall|j: int|
                0 <= j < i ==> is_resolved_asset(#[trigger] listed@[j], assets[j], cache@),
    {
        listed.push(asset.resolved(Some(bases[i].clone())));
        i += 1;
    }
    PoolListing::Listed(
        OsmosisPool {
            pool_address,
            id,
            pool_params,
            future_pool_governor,
            total_shares,
            pool_assets: listed,
            total_weight,
            chain: Some(String::from_str("osmosis")),
        },
    )
}

} // verus!
