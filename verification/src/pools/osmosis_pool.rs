//! Weighted pools of the Osmosis chain: the snapshot record, the lookup of
//! an asset by denom, and quotes computed from reserves or asked from the
//! chain's estimator.

use vstd::prelude::*;
use vstd::string::StringExecFns;
use crate::error::quote_result_view;
use crate::error::value_result_view;
use crate::error::not_a_number;
use crate::error::not_a_number_text;
use crate::error::ShapeFault;
use crate::error::ShapeFaultView;
use crate::error::TracyError;
use crate::error::TracyErrorView;
use crate::pools::weighted::compute_weighted_quote;
use crate::pools::weighted::lemma_weighted_quote_monotonic;
use crate::pools::weighted::weighted_quote;
use crate::query::PriceQuery;
use crate::query::PriceQueryView;
use crate::query::QuoteStep;
use crate::query::QuoteStepView;
use crate::text::clone_text_option;
use crate::text::decimal_digits;
use crate::text::format_u128;
use crate::text::lemma_texts_push;
use crate::text::parse_u128;
use crate::text::parse_u128_spec;
use crate::text::parse_u64;
use crate::text::parse_u64_spec;
use crate::text::str_eq;
use crate::util::search::first_index;
use crate::util::search::lemma_first_index;
use crate::Pool;
use crate::PoolConfig;
use crate::PoolConfigView;
use crate::Quote;
use crate::QuoteView;

verus! {

/// The fees of a pool, as the chain writes them.
#[derive(Debug, PartialEq, Eq)]
pub struct OsmosisPoolParams {
    pub swap_fee: String,
    pub exit_fee: String,
}

/// An amount of one denom. `native_name` is the base denom that a hashed
/// cross-chain denom resolves to.
#[derive(Debug, PartialEq, Eq)]
pub struct OsmosisPoolToken {
    pub denom: String,
    pub amount: String,
    pub native_name: Option<String>,
}

/// One reserve of a pool with its weight. `decimals` is the asset's
/// precision; where it is absent the precision is six.
#[derive(Debug, PartialEq, Eq)]
pub struct OsmosisPoolAssets {
    pub token: OsmosisPoolToken,
    pub weight: String,
    pub decimals: Option<u32>,
}

/// A weighted pool as its snapshot records it. Amounts and weights are
/// decimal numbers written as text.
#[derive(Debug, PartialEq, Eq)]
pub struct OsmosisPool {
    pub pool_address: String,
    pub id: String,
    pub pool_params: OsmosisPoolParams,
    pub future_pool_governor: String,
    pub total_shares: OsmosisPoolToken,
    pub pool_assets: Vec<OsmosisPoolAssets>,
    pub total_weight: String,
    pub chain: Option<String>,
}

impl Clone for OsmosisPoolParams {
    fn clone(&self) -> (copy: OsmosisPoolParams)
        ensures
            copy == *self,
    {
        OsmosisPoolParams { swap_fee: self.swap_fee.clone(), exit_fee: self.exit_fee.clone() }
    }
}

impl Clone for OsmosisPoolToken {
    fn clone(&self) -> (copy: OsmosisPoolToken)
        ensures
            copy == *self,
    {
        OsmosisPoolToken {
            denom: self.denom.clone(),
            amount: self.amount.clone(),
            native_name: clone_text_option(&self.native_name),
        }
    }
}

impl Clone for OsmosisPoolAssets {
    fn clone(&self) -> (copy: OsmosisPoolAssets)
        ensures
            copy == *self,
    {
        OsmosisPoolAssets {
            token: self.token.clone(),
            weight: self.weight.clone(),
            decimals: self.decimals,
        }
    }
}

/// A copy of a list of assets.
fn clone_assets(assets: &Vec<OsmosisPoolAssets>) -> (copy: Vec<OsmosisPoolAssets>)
    ensures
        copy@ == assets@,
{
    let mut copy: Vec<OsmosisPoolAssets> = Vec::new();
    let mut i: usize = 0;
    while i < assets.len()
        invariant
            i <= assets.len(),
            copy@ == assets@.take(i as int),
        decreases assets.len() - i,
    {
        copy.push(assets[i].clone());
        i += 1;
    }
    copy
}

/// A pool with its assets as a sequence: two pools with the same view are
/// the same pool to every question that can be asked of them.
pub struct OsmosisPoolView {
    pub pool_address: String,
    pub id: String,
    pub pool_params: OsmosisPoolParams,
    pub future_pool_governor: String,
    pub total_shares: OsmosisPoolToken,
    pub pool_assets: Seq<OsmosisPoolAssets>,
    pub total_weight: String,
    pub chain: Option<String>,
}

impl View for OsmosisPool {
    type V = OsmosisPoolView;

    open spec fn view(&self) -> OsmosisPoolView {
        OsmosisPoolView {
            pool_address: self.pool_address,
            id: self.id,
            pool_params: self.pool_params,
            future_pool_governor: self.future_pool_governor,
            total_shares: self.total_shares,
            pool_assets: self.pool_assets@,
            total_weight: self.total_weight,
            chain: self.chain,
        }
    }
}

impl Clone for OsmosisPool {
    fn clone(&self) -> (copy: OsmosisPool)
        ensures
            copy@ == self@,
    {
        OsmosisPool {
            pool_address: self.pool_address.clone(),
            id: self.id.clone(),
            pool_params: self.pool_params.clone(),
            future_pool_governor: self.future_pool_governor.clone(),
            total_shares: self.total_shares.clone(),
            pool_assets: clone_assets(&self.pool_assets),
            total_weight: self.total_weight.clone(),
            chain: clone_text_option(&self.chain),
        }
    }
}

impl OsmosisPoolAssets {
    /// Whether `denom` names this asset: as its raw denom or as the base
    /// denom it resolves to.
    pub open spec fn is_named(&self, denom: Seq<char>) -> bool {
        self.token.denom@ == denom || (self.token.native_name matches Some(name) && name@ == denom)
    }

    /// The asset's precision: six unless the record says otherwise.
    pub open spec fn spec_decimals(&self) -> u32 {
        match self.decimals {
            Some(d) => d,
            None => 6,
        }
    }

    /// The base denom of the asset, where it has one.
    pub open spec fn native_denom(&self) -> Option<Seq<char>> {
        match self.token.native_name {
            Some(name) => Some(name@),
            None => None,
        }
    }

    /// The same reserve with the base denom that its denom resolves to.
    pub fn resolved(self, native_name: Option<String>) -> (asset: OsmosisPoolAssets)
        ensures
            asset == (OsmosisPoolAssets {
                token: OsmosisPoolToken { native_name, ..self.token },
                ..self
            }),
    {
        OsmosisPoolAssets {
            token: OsmosisPoolToken {
                denom: self.token.denom,
                amount: self.token.amount,
                native_name,
            },
            weight: self.weight,
            decimals: self.decimals,
        }
    }

    /// Whether the reserve and the weight are 128-bit decimal numbers.
    pub open spec fn spec_well_formed(&self) -> bool {
        parse_u128_spec(self.token.amount@) is Some && parse_u128_spec(self.weight@) is Some
    }

    /// Whether the reserve and the weight are 128-bit decimal numbers.
    pub fn well_formed(&self) -> (yes: bool)
        ensures
            yes == self.spec_well_formed(),
    {
        parse_u128(self.token.amount.as_str()).is_some() && parse_u128(
            self.weight.as_str(),
        ).is_some()
    }

    /// Whether `denom` names this asset.
    pub fn named(&self, denom: &str) -> (yes: bool)
        ensures
            yes == self.is_named(denom@),
    {
        if str_eq(self.token.denom.as_str(), denom) {
            return true;
        }
        match &self.token.native_name {
            Some(name) => str_eq(name.as_str(), denom),
            None => false,
        }
    }

    /// The asset's precision: six unless the record says otherwise.
    pub fn decimals(&self) -> (d: u32)
        ensures
            d == self.spec_decimals(),
    {
        match self.decimals {
            Some(d) => d,
            None => 6,
        }
    }
}

/// The failure of a pool whose reserve or weight `text` is no number.
pub open spec fn not_a_number_fault(text: Seq<char>) -> TracyErrorView {
    TracyErrorView::UnsupportedPoolShape { fault: ShapeFaultView::NotANumber { text } }
}

/// The position of the first asset that `denom` names.
pub open spec fn first_named(assets: Seq<OsmosisPoolAssets>, denom: Seq<char>) -> Option<int> {
    first_index(assets, |a: OsmosisPoolAssets| a.is_named(denom))
}

/// `first_named` finds an asset exactly where one is named, and then the
/// first such.
pub proof fn lemma_first_named(assets: Seq<OsmosisPoolAssets>, denom: Seq<char>)
    ensures
        match first_named(assets, denom) {
            Some(i) => {
                &&& 0 <= i < assets.len()
                &&& assets[i].is_named(denom)
                &&& forall|j: int| 0 <= j < i ==> !(#[trigger] assets[j]).is_named(denom)
            },
            None => forall|j: int| 0 <= j < assets.len() ==> !(#[trigger] assets[j]).is_named(denom),
        },
{
    lemma_first_index(assets, |a: OsmosisPoolAssets| a.is_named(denom));
}

/// The raw denoms of the assets, in their order.
pub open spec fn raw_denoms(assets: Seq<OsmosisPoolAssets>) -> Seq<Seq<char>> {
    assets.map_values(|a: OsmosisPoolAssets| a.token.denom@)
}

/// The base denoms of the assets that have one, in their order.
pub open spec fn native_denoms(assets: Seq<OsmosisPoolAssets>) -> Seq<Seq<char>> {
    assets.filter_map(|a: OsmosisPoolAssets| a.native_denom())
}

/// A base denom of an asset is among `native_denoms`.
proof fn lemma_native_listed(assets: Seq<OsmosisPoolAssets>, i: int)
    requires
        0 <= i < assets.len(),
        assets[i].native_denom() is Some,
    ensures
        native_denoms(assets).contains(assets[i].native_denom()->0),
    decreases assets.len(),
{
    let f = |a: OsmosisPoolAssets| a.native_denom();
    let rest = assets.drop_last();
    let tail: Seq<Seq<char>> = match f(assets.last()) {
        Some(name) => seq![name],
        None => Seq::empty(),
    };
    if i == assets.len() - 1 {
        let all = rest.filter_map(f) + tail;
        assert(all[all.len() - 1] == assets[i].native_denom()->0);
    } else {
        lemma_native_listed(rest, i);
        let k = choose|k: int|
            0 <= k < rest.filter_map(f).len() && rest.filter_map(f)[k] == rest[i].native_denom()->0;
        assert((rest.filter_map(f) + tail)[k] == assets[i].native_denom()->0);
    }
}

/// The denoms that `token_denoms` lists are those that name an asset.
pub proof fn lemma_listed_iff_named(assets: Seq<OsmosisPoolAssets>, denom: Seq<char>)
    ensures
        (raw_denoms(assets) + native_denoms(assets)).contains(denom) <==> first_named(
            assets,
            denom,
        ) is Some,
{
    let listed = raw_denoms(assets) + native_denoms(assets);
    lemma_first_named(assets, denom);
    if listed.contains(denom) {
        let k = choose|k: int| 0 <= k < listed.len() && listed[k] == denom;
        if k >= assets.len() {
            assets.lemma_filter_map_contains(|a: OsmosisPoolAssets| a.native_denom(), denom);
            let t = choose|t: OsmosisPoolAssets| #[trigger]
                assets.contains(t) && t.native_denom() == Some(denom);
            let j = choose|j: int| 0 <= j < assets.len() && assets[j] == t;
            assert(assets[j].is_named(denom));
        }
    }
    if first_named(assets, denom) is Some {
        let i = first_named(assets, denom)->0;
        if assets[i].token.denom@ == denom {
            assert(listed[i] == denom);
        } else {
            lemma_native_listed(assets, i);
            let k = choose|k: int|
                0 <= k < native_denoms(assets).len() && native_denoms(assets)[k] == denom;
            assert(listed[assets.len() + k] == denom);
        }
    }
}

impl OsmosisPool {
    /// The outcome of `calculate_quote`.
    pub open spec fn spec_calculate_quote(
        &self,
        amount: u128,
        token_in_amount: u128,
        token_out_amount: u128,
        token_in_weight: u128,
        token_out_weight: u128,
        token_in_decimals: u32,
        token_out_decimals: u32,
    ) -> Result<u128, TracyErrorView> {
        if self.pool_assets@.len() != 2 {
            Err(TracyErrorView::UnsupportedPoolShape { fault: ShapeFaultView::AssetCount })
        } else {
            match weighted_quote(
                amount as nat,
                token_in_amount as nat,
                token_out_amount as nat,
                token_in_weight as nat,
                token_out_weight as nat,
                token_in_decimals as nat,
                token_out_decimals as nat,
            ) {
                Some(amount_out) => Ok(amount_out),
                None => Err(TracyErrorView::UnsupportedPoolShape { fault: ShapeFaultView::NoValue }),
            }
        }
    }

    /// The amount that the pool gives for `amount` of `token_in`, computed
    /// from its reserves. A denom that names no asset is a denom not found;
    /// whatever else stands in the way is an unsupported shape of the pool,
    /// with its fault. The checks are made in this order: both denoms
    /// name an asset; the reserves and then the weights of the two assets
    /// are numbers; the pool holds two assets; the formula has a value.
    pub open spec fn spec_local_quote(
        &self,
        amount: u128,
        token_in: Seq<char>,
        token_out: Seq<char>,
    ) -> Result<u128, TracyErrorView> {
        let assets = self.pool_assets@;
        match (first_named(assets, token_in), first_named(assets, token_out)) {
            (None, _) => Err(TracyErrorView::DenomNotFound { denom: token_in }),
            (Some(_), None) => Err(TracyErrorView::DenomNotFound { denom: token_out }),
            (Some(i), Some(o)) => {
                let reserve_in = assets[i].token.amount@;
                let reserve_out = assets[o].token.amount@;
                let weight_in = assets[i].weight@;
                let weight_out = assets[o].weight@;
                match (
                    parse_u128_spec(reserve_in),
                    parse_u128_spec(reserve_out),
                    parse_u128_spec(weight_in),
                    parse_u128_spec(weight_out),
                ) {
                    (None, _, _, _) => Err(not_a_number_fault(reserve_in)),
                    (_, None, _, _) => Err(not_a_number_fault(reserve_out)),
                    (_, _, None, _) => Err(not_a_number_fault(weight_in)),
                    (_, _, _, None) => Err(not_a_number_fault(weight_out)),
                    (Some(ri), Some(ro), Some(wi), Some(wo)) => self.spec_calculate_quote(
                        amount,
                        ri,
                        ro,
                        wi,
                        wo,
                        assets[i].spec_decimals(),
                        assets[o].spec_decimals(),
                    ),
                }
            },
        }
    }

    /// The question to put to the chain's estimator. The checks are made in
    /// this order: an estimator endpoint is configured; the pool id is a
    /// number, or else the query fails; both denoms name an asset.
    pub open spec fn spec_estimate_request(
        &self,
        amount: u128,
        token_in: Seq<char>,
        token_out: Seq<char>,
        config: PoolConfigView,
    ) -> Result<PriceQueryView, TracyErrorView> {
        let assets = self.pool_assets@;
        match (
            config.grpc_url,
            parse_u64_spec(self.id@),
            first_named(assets, token_in),
            first_named(assets, token_out),
        ) {
            (None, _, _, _) => Err(TracyErrorView::ConfigMissing { chain: "osmosis"@ }),
            (Some(endpoint), None, _, _) => Err(
                TracyErrorView::ExternalQueryFailure {
                    endpoint,
                    cause: not_a_number(self.id@),
                },
            ),
            (_, _, None, _) => Err(TracyErrorView::DenomNotFound { denom: token_in }),
            (_, _, _, None) => Err(TracyErrorView::DenomNotFound { denom: token_out }),
            (Some(endpoint), Some(pool_id), Some(i), Some(o)) => Ok(
                PriceQueryView::SwapEstimate {
                    endpoint,
                    sender: self.pool_address@,
                    pool_id,
                    token_in: decimal_digits(amount as nat) + assets[i].token.denom@,
                    token_out_denom: assets[o].token.denom@,
                },
            ),
        }
    }

    /// Whether every reserve and every weight of the pool is a 128-bit
    /// decimal number, as a snapshot writes them.
    pub open spec fn spec_well_formed(&self) -> bool {
        forall|k: int|
            0 <= k < self.pool_assets@.len() ==> (#[trigger] self.pool_assets@[k]).spec_well_formed()
    }

    /// Whether every reserve and every weight of the pool is a 128-bit
    /// decimal number.
    pub fn well_formed(&self) -> (yes: bool)
        ensures
            yes == self.spec_well_formed(),
    {
        let mut k: usize = 0;
        while k < self.pool_assets.len()
            invariant
                k <= self.pool_assets.len(),
                forall|j: int| 0 <= j < k ==> (#[trigger] self.pool_assets@[j]).spec_well_formed(),
            decreases self.pool_assets.len() - k,
        {
            if !self.pool_assets[k].well_formed() {
                return false;
            }
            k += 1;
        }
        true
    }

    /// The position of the first asset that `denom` names, be it by its raw
    /// denom or by the base denom it resolves to.
    pub fn asset_for_denom(&self, denom: &str) -> (found: Option<usize>)
        ensures
            match found {
                Some(i) => first_named(self.pool_assets@, denom@) == Some(i as int),
                None => first_named(self.pool_assets@, denom@) is None,
            },
    {
        let mut i: usize = 0;
        while i < self.pool_assets.len()
            invariant
                i <= self.pool_assets.len(),
                forall|j: int| 0 <= j < i ==> !(#[trigger] self.pool_assets@[j]).is_named(denom@),
            decreases self.pool_assets.len() - i,
        {
            if self.pool_assets[i].named(denom) {
                proof {
                    lemma_first_named(self.pool_assets@, denom@);
                }
                return Some(i);
            }
            i += 1;
        }
        proof {
            lemma_first_named(self.pool_assets@, denom@);
        }
        None
    }

    /// The amount that leaves the pool for `amount` entering it:
    /// `(token_out_amount * token_out_weight * token_out_decimals * amount)
    /// / (token_in_amount * token_in_weight * token_in_decimals)`, rounded
    /// down. Only a pool of two assets has such a price, and only where the
    /// divisor is not zero and both products fit 128 bits; otherwise the
    /// shape of the pool is not supported, with the fault that says why.
    pub fn calculate_quote(
        &self,
        amount: u128,
        token_in_amount: u128,
        token_out_amount: u128,
        token_in_weight: u128,
        token_out_weight: u128,
        token_in_decimals: u32,
        token_out_decimals: u32,
    ) -> (r: Result<u128, TracyError>)
        ensures
            value_result_view(r) == self.spec_calculate_quote(
                amount,
                token_in_amount,
                token_out_amount,
                token_in_weight,
                token_out_weight,
                token_in_decimals,
                token_out_decimals,
            ),
    {
        if self.pool_assets.len() != 2 {
            return Err(TracyError::UnsupportedPoolShape { fault: ShapeFault::AssetCount });
        }
        match compute_weighted_quote(
            amount,
            token_in_amount,
            token_out_amount,
            token_in_weight,
            token_out_weight,
            token_in_decimals,
            token_out_decimals,
        ) {
            Some(amount_out) => Ok(amount_out),
            None => Err(TracyError::UnsupportedPoolShape { fault: ShapeFault::NoValue }),
        }
    }

    /// Reads a reserve or a weight.
    fn read_number(text: &String) -> (r: Result<u128, TracyError>)
        ensures
            value_result_view(r) == match parse_u128_spec(text@) {
                Some(v) => Ok::<u128, TracyErrorView>(v),
                None => Err(not_a_number_fault(text@)),
            },
    {
        match parse_u128(text.as_str()) {
            Some(v) => Ok(v),
            None => Err(
                TracyError::UnsupportedPoolShape {
                    fault: ShapeFault::NotANumber { text: text.clone() },
                },
            ),
        }
    }

    /// Prices a swap of `amount` of `token_in` for `token_out` from the
    /// pool's own reserves and weights.
    pub fn local_quote(&self, amount: u128, token_in: &str, token_out: &str) -> (r: Result<
        Quote,
        TracyError,
    >)
        ensures
            quote_result_view(r) == match self.spec_local_quote(amount, token_in@, token_out@) {
                Ok(amount_out) => Ok::<QuoteView, TracyErrorView>(
                    QuoteView::priced(amount, amount_out, self.pool_address@),
                ),
                Err(error) => Err(error),
            },
    {
        let i = match self.asset_for_denom(token_in) {
            Some(i) => i,
            None => {
                return Err(TracyError::DenomNotFound { denom: String::from_str(token_in) });
            },
        };
        let o = match self.asset_for_denom(token_out) {
            Some(o) => o,
            None => {
                return Err(TracyError::DenomNotFound { denom: String::from_str(token_out) });
            },
        };
        proof {
            lemma_first_named(self.pool_assets@, token_in@);
            lemma_first_named(self.pool_assets@, token_out@);
        }
        let asset_in = &self.pool_assets[i];
        let asset_out = &self.pool_assets[o];
        let reserve_in = match Self::read_number(&asset_in.token.amount) {
            Ok(v) => v,
            Err(e) => {
                return Err(e);
            },
        };
        let reserve_out = match Self::read_number(&asset_out.token.amount) {
            Ok(v) => v,
            Err(e) => {
                return Err(e);
            },
        };
        let weight_in = match Self::read_number(&asset_in.weight) {
            Ok(v) => v,
            Err(e) => {
                return Err(e);
            },
        };
        let weight_out = match Self::read_number(&asset_out.weight) {
            Ok(v) => v,
            Err(e) => {
                return Err(e);
            },
        };
        match self.calculate_quote(
            amount,
            reserve_in,
            reserve_out,
            weight_in,
            weight_out,
            asset_in.decimals(),
            asset_out.decimals(),
        ) {
            Ok(amount_out) => Ok(Quote::priced(amount, amount_out, self.pool_address.clone())),
            Err(e) => Err(e),
        }
    }

    /// The question to put to the chain's estimator for a swap of `amount`
    /// of `token_in` for `token_out`: the pool is named by its id, the
    /// tokens by their raw denoms, and the pool's own address stands as the
    /// sender.
    pub fn estimate_request(
        &self,
        amount: u128,
        token_in: &str,
        token_out: &str,
        config: &PoolConfig,
    ) -> (r: Result<PriceQuery, TracyError>)
        ensures
            crate::query::query_result_view(r) == self.spec_estimate_request(
                amount,
                token_in@,
                token_out@,
                config@,
            ),
    {
        let endpoint = match &config.grpc_url {
            Some(url) => url.clone(),
            None => {
                return Err(TracyError::ConfigMissing { chain: String::from_str("osmosis") });
            },
        };
        let pool_id = match parse_u64(self.id.as_str()) {
            Some(id) => id,
            None => {
                let cause = not_a_number_text(self.id.as_str());
                return Err(TracyError::ExternalQueryFailure { endpoint, cause });
            },
        };
        let i = match self.asset_for_denom(token_in) {
            Some(i) => i,
            None => {
                return Err(TracyError::DenomNotFound { denom: String::from_str(token_in) });
            },
        };
        let o = match self.asset_for_denom(token_out) {
            Some(o) => o,
            None => {
                return Err(TracyError::DenomNotFound { denom: String::from_str(token_out) });
            },
        };
        proof {
            lemma_first_named(self.pool_assets@, token_in@);
            lemma_first_named(self.pool_assets@, token_out@);
        }
        let mut offered = format_u128(amount);
        offered.append(self.pool_assets[i].token.denom.as_str());
        Ok(
            PriceQuery::SwapEstimate {
                endpoint,
                sender: self.pool_address.clone(),
                pool_id,
                token_in: offered,
                token_out_denom: self.pool_assets[o].token.denom.clone(),
            },
        )
    }
}

impl Pool for OsmosisPool {
    /// The raw denoms of the assets, then the base denoms of those that
    /// have one.
    open spec fn spec_token_denoms(&self) -> Seq<Seq<char>> {
        raw_denoms(self.pool_assets@) + native_denoms(self.pool_assets@)
    }

    open spec fn spec_chain(&self) -> Seq<char> {
        "osmosis"@
    }

    open spec fn spec_address(&self) -> Option<Seq<char>> {
        Some(self.pool_address@)
    }

    /// With `estimate_quote` the chain's estimator is to be asked;
    /// without it the pool prices the swap from its reserves.
    open spec fn spec_get_quote(
        &self,
        amount: u128,
        token_in: Seq<char>,
        token_out: Seq<char>,
        config: PoolConfigView,
    ) -> Result<QuoteStepView, TracyErrorView> {
        if config.estimate_quote {
            match self.spec_estimate_request(amount, token_in, token_out, config) {
                Ok(query) => Ok(QuoteStepView::Ask(query)),
                Err(error) => Err(error),
            }
        } else {
            match self.spec_local_quote(amount, token_in, token_out) {
                Ok(amount_out) => Ok(
                    QuoteStepView::Done(QuoteView::priced(amount, amount_out, self.pool_address@)),
                ),
                Err(error) => Err(error),
            }
        }
    }

    fn get_quote(
        &self,
        amount: u128,
        token_in_denom: &str,
        token_out_denom: &str,
        config: &PoolConfig,
    ) -> (r: Result<QuoteStep, TracyError>) {
        if config.estimate_quote {
            match self.estimate_request(amount, token_in_denom, token_out_denom, config) {
                Ok(query) => Ok(QuoteStep::Ask(query)),
                Err(error) => Err(error),
            }
        } else {
            match self.local_quote(amount, token_in_denom, token_out_denom) {
                Ok(quote) => Ok(QuoteStep::Done(quote)),
                Err(error) => Err(error),
            }
        }
    }

    fn token_denoms(&self) -> (denoms: Vec<String>) {
        let ghost assets = self.pool_assets@;
        let ghost f = |a: OsmosisPoolAssets| a.native_denom();
        let mut denoms: Vec<String> = Vec::new();
        let mut i: usize = 0;
        while i < self.pool_assets.len()
            invariant
                i <= self.pool_assets.len(),
                assets == self.pool_assets@,
                denoms.deep_view() == raw_denoms(assets.take(i as int)),
            decreases self.pool_assets.len() - i,
        {
            let ghost before = denoms;
            denoms.push(self.pool_assets[i].token.denom.clone());
            proof {
                lemma_texts_push(before, denoms, self.pool_assets[i as int].token.denom);
            }
            i += 1;
        }
        assert(assets.take(assets.len() as int) =~= assets);
        let mut k: usize = 0;
        while k < self.pool_assets.len()
            invariant
                k <= self.pool_assets.len(),
                assets == self.pool_assets@,
                f == |a: OsmosisPoolAssets| a.native_denom(),
                denoms.deep_view() == raw_denoms(assets) + native_denoms(assets.take(k as int)),
            decreases self.pool_assets.len() - k,
        {
            proof {
                assets.lemma_filter_map_take_succ(f, k as int);
            }
            if let Some(name) = &self.pool_assets[k].token.native_name {
                let ghost before = denoms;
                denoms.push(name.clone());
                proof {
                    lemma_texts_push(before, denoms, *name);
                }
            }
            k += 1;
        }
        denoms
    }

    fn chain(&self) -> (tag: String) {
        String::from_str("osmosis")
    }

    fn address(&self) -> (r: Result<String, TracyError>) {
        Ok(self.pool_address.clone())
    }

    fn has_denom(&self, denom: &str) -> (yes: bool) {
        proof {
            lemma_listed_iff_named(self.pool_assets@, denom@);
        }
        self.asset_for_denom(denom).is_some()
    }
}

/// Where the asset that enters a pool of two has a reserve or a weight of
/// zero, the pool has no price for the swap: the quote from reserves, and
/// with it `get_quote` under a configuration that asks for one, fails with
/// an unsupported shape, whatever the amount.
pub proof fn lemma_empty_reserve_has_no_quote(
    pool: OsmosisPool,
    amount: u128,
    token_in: Seq<char>,
    token_out: Seq<char>,
    config: PoolConfigView,
)
    requires
        pool.spec_well_formed(),
        pool.pool_assets@.len() == 2,
        first_named(pool.pool_assets@, token_in) is Some,
        first_named(pool.pool_assets@, token_out) is Some,
        ({
            let entering = pool.pool_assets@[first_named(pool.pool_assets@, token_in)->0];
            parse_u128_spec(entering.token.amount@) == Some(0u128) || parse_u128_spec(
                entering.weight@,
            ) == Some(0u128)
        }),
    ensures
        pool.spec_local_quote(amount, token_in, token_out) == Err::<u128, TracyErrorView>(
            TracyErrorView::UnsupportedPoolShape { fault: ShapeFaultView::NoValue },
        ),
        !config.estimate_quote ==> pool.spec_get_quote(amount, token_in, token_out, config)
            == Err::<QuoteStepView, TracyErrorView>(
            TracyErrorView::UnsupportedPoolShape { fault: ShapeFaultView::NoValue },
        ),
{
    lemma_first_named(pool.pool_assets@, token_in);
    lemma_first_named(pool.pool_assets@, token_out);
    let i = first_named(pool.pool_assets@, token_in)->0;
    let entering = pool.pool_assets@[i];
    let reserve = parse_u128_spec(entering.token.amount@)->0;
    let weight = parse_u128_spec(entering.weight@)->0;
    assert(reserve as nat * weight as nat * entering.spec_decimals() as nat == 0) by (nonlinear_arith)
        requires
            reserve == 0 || weight == 0,
    ;
}

/// A quote from reserves fails in two ways only: a denom is not found, or
/// the shape of the pool is not supported.
pub proof fn lemma_local_quote_failures(
    pool: OsmosisPool,
    amount: u128,
    token_in: Seq<char>,
    token_out: Seq<char>,
)
    ensures
        match pool.spec_local_quote(amount, token_in, token_out) {
            Ok(_) => true,
            Err(TracyErrorView::DenomNotFound { denom }) => denom == token_in || denom == token_out,
            Err(TracyErrorView::UnsupportedPoolShape { .. }) => true,
            Err(_) => false,
        },
{
}

/// A well-formed pool of two assets prices every swap between the denoms
/// of its assets, unless the formula has no value for it.
pub proof fn lemma_well_formed_pool_prices(
    pool: OsmosisPool,
    amount: u128,
    token_in: Seq<char>,
    token_out: Seq<char>,
)
    requires
        pool.spec_well_formed(),
        pool.pool_assets@.len() == 2,
        pool.spec_token_denoms().contains(token_in),
        pool.spec_token_denoms().contains(token_out),
    ensures
        pool.spec_local_quote(amount, token_in, token_out) is Ok || pool.spec_local_quote(
            amount,
            token_in,
            token_out,
        ) == Err::<u128, TracyErrorView>(
            TracyErrorView::UnsupportedPoolShape { fault: ShapeFaultView::NoValue },
        ),
{
    lemma_listed_iff_named(pool.pool_assets@, token_in);
    lemma_listed_iff_named(pool.pool_assets@, token_out);
    lemma_first_named(pool.pool_assets@, token_in);
    lemma_first_named(pool.pool_assets@, token_out);
}

/// A larger amount entering a pool never gives a smaller amount leaving it:
/// wherever the pool prices the larger amount from its reserves it prices
/// the smaller one too, and gives no more for it.
pub proof fn lemma_local_quote_monotonic(
    pool: OsmosisPool,
    smaller: u128,
    larger: u128,
    token_in: Seq<char>,
    token_out: Seq<char>,
)
    requires
        smaller <= larger,
        pool.spec_local_quote(larger, token_in, token_out) is Ok,
    ensures
        pool.spec_local_quote(smaller, token_in, token_out) is Ok,
        pool.spec_local_quote(smaller, token_in, token_out)->Ok_0 <= pool.spec_local_quote(
            larger,
            token_in,
            token_out,
        )->Ok_0,
{
    let assets = pool.pool_assets@;
    let i = first_named(assets, token_in)->0;
    let o = first_named(assets, token_out)->0;
    let reserve_in = parse_u128_spec(assets[i].token.amount@)->0;
    let reserve_out = parse_u128_spec(assets[o].token.amount@)->0;
    let weight_in = parse_u128_spec(assets[i].weight@)->0;
    let weight_out = parse_u128_spec(assets[o].weight@)->0;
    lemma_weighted_quote_monotonic(
        smaller as nat,
        larger as nat,
        reserve_in as nat,
        reserve_out as nat,
        weight_in as nat,
        weight_out as nat,
        assets[i].spec_decimals() as nat,
        assets[o].spec_decimals() as nat,
    );
}

/// The same of `get_quote`: with a configuration that asks for a quote from
/// the reserves, the amount that leaves the pool does not fall when the
/// amount that enters it grows.
pub proof fn lemma_get_quote_monotonic(
    pool: OsmosisPool,
    smaller: u128,
    larger: u128,
    token_in: Seq<char>,
    token_out: Seq<char>,
    config: PoolConfigView,
)
    requires
        smaller <= larger,
        !config.estimate_quote,
        pool.spec_get_quote(larger, token_in, token_out, config) is Ok,
    ensures
        pool.spec_get_quote(smaller, token_in, token_out, config) matches Ok(
            QuoteStepView::Done(low),
        ) && pool.spec_get_quote(larger, token_in, token_out, config) matches Ok(
            QuoteStepView::Done(high),
        ) && low.token_out is Some && high.token_out is Some && low.token_out->0
            <= high.token_out->0,
{
    lemma_local_quote_monotonic(pool, smaller, larger, token_in, token_out);
}

} // verus!
