use tracy::config::ChainConfigs;
use tracy::dex::DexAgg;
use tracy::error::not_a_number_text;
use tracy::error::ShapeFault;
use tracy::error::TracyError;
use tracy::pools::juno_pool::get_price_for;
use tracy::pools::juno_pool::JunoDenom;
use tracy::pools::juno_pool::JunoToken;
use tracy::pools::juno_pool::WasmPool;
use tracy::pools::osmosis_pool::OsmosisPool;
use tracy::pools::osmosis_pool::OsmosisPoolAssets;
use tracy::pools::osmosis_pool::OsmosisPoolParams;
use tracy::pools::osmosis_pool::OsmosisPoolToken;
use tracy::query::contract_request_parameters;
use tracy::query::quote_from_reply;
use tracy::query::PriceQuery;
use tracy::query::QuoteStep;
use tracy::quotes::finish_quote;
use tracy::quotes::finish_quotes;
use tracy::quotes::get_quotes;
use tracy::quotes::start_quotes;
use tracy::PoolConfig;
use tracy::Quote;

fn asset(denom: &str, amount: &str) -> OsmosisPoolAssets {
    OsmosisPoolAssets {
        token: OsmosisPoolToken { denom: denom.to_string(), amount: amount.to_string(), native_name: None },
        weight: "1".to_string(),
        decimals: None,
    }
}

fn osmo(address: &str, assets: Vec<OsmosisPoolAssets>) -> OsmosisPool {
    OsmosisPool {
        pool_address: address.to_string(),
        id: "1".to_string(),
        pool_params: OsmosisPoolParams { swap_fee: "0".to_string(), exit_fee: "0".to_string() },
        future_pool_governor: String::new(),
        total_shares: OsmosisPoolToken {
            denom: "gamm/pool/1".to_string(),
            amount: "1".to_string(),
            native_name: None,
        },
        pool_assets: assets,
        total_weight: "2".to_string(),
        chain: None,
    }
}

fn juno(address: &str) -> WasmPool {
    let token = |symbol: &str| JunoToken {
        name: None,
        symbol: Some(symbol.to_string()),
        total_supply: None,
        address: None,
        decimals: Some(6),
    };
    WasmPool {
        pool_address: Some(address.to_string()),
        lp_token_address: "juno1lp".to_string(),
        lp_token_supply: "10".to_string(),
        token1: Some(token("ujuno")),
        token1_denom: JunoDenom { native: Some("ujuno".to_string()), cw20: None },
        token1_reserve: "1000".to_string(),
        token2: Some(token("uatom")),
        token2_denom: JunoDenom { native: Some("uatom".to_string()), cw20: None },
        token2_reserve: "2000".to_string(),
    }
}

fn local() -> PoolConfig {
    PoolConfig { grpc_url: None, rest_url: Some("https://lcd".to_string()), rpc_url: None, estimate_quote: false }
}

fn aggregator() -> DexAgg {
    DexAgg::new(
        vec![
            osmo("good", vec![asset("ujuno", "1000000"), asset("uatom", "2000000")]),
            osmo("other", vec![asset("uosmo", "1"), asset("uatom", "1")]),
            osmo("three", vec![asset("ujuno", "1"), asset("uatom", "1"), asset("uosmo", "1")]),
            osmo("better", vec![asset("ujuno", "1000000"), asset("uatom", "3000000")]),
        ],
        vec![juno("juno1pool")],
        None,
    )
}

fn priced(amount_in: u128, amount_out: u128, address: &str) -> Quote {
    Quote::priced(amount_in, amount_out, address.to_string())
}

#[test]
fn batch_has_one_slot_for_each_matching_pool() {
    let agg = aggregator();
    let replies = vec![None, None, None, Some(Ok("777".to_string()))];
    let quotes = get_quotes(&agg, "ujuno", "uatom", 100_000, None, Some(&local()), &replies);
    assert_eq!(quotes.len(), agg.with_denoms(vec!["ujuno".to_string(), "uatom".to_string()]).len());
    assert_eq!(
        quotes,
        vec![
            priced(100_000, 200_000, "good"),
            Quote::failed(&TracyError::UnsupportedPoolShape { fault: ShapeFault::AssetCount }),
            priced(100_000, 300_000, "better"),
            priced(100_000, 777, "juno1pool"),
        ]
    );
}

#[test]
fn failed_slot_carries_only_its_error() {
    let agg = aggregator();
    let quotes = get_quotes(&agg, "ujuno", "uatom", 100_000, None, Some(&local()), &vec![]);
    let failed = &quotes[1];
    assert_eq!(
        failed.error(),
        Some("{Can only calculate quote for pools with 2 assets, estimate quote instead.}".to_string())
    );
    assert_eq!(failed.token_in(), None);
    assert_eq!(failed.token_out(), None);
    assert_eq!(failed.pool_address(), None);
}

#[test]
fn failure_of_one_pool_leaves_the_others_alone() {
    let agg = aggregator();
    let answered = vec![None, None, None, Some(Ok("777".to_string()))];
    let unanswered = vec![
        None,
        None,
        None,
        Some(Err(TracyError::ExternalQueryFailure {
            endpoint: "https://lcd".to_string(),
            cause: "connection refused".to_string(),
        })),
    ];
    let a = get_quotes(&agg, "ujuno", "uatom", 100_000, None, Some(&local()), &answered);
    let b = get_quotes(&agg, "ujuno", "uatom", 100_000, None, Some(&local()), &unanswered);
    assert_eq!(a.len(), 4);
    assert_eq!(b.len(), 4);
    assert_eq!(a[..3], b[..3]);
    assert_eq!(a[3].token_out(), Some(777));
    assert_eq!(b[3].token_out(), None);
    assert_eq!(b[3].token_in(), None);
    assert_eq!(b[3].error(), Some("{Query to https://lcd failed: connection refused}".to_string()));
}

#[test]
fn question_without_answer_is_a_failed_query() {
    let agg = aggregator();
    let quotes = get_quotes(&agg, "ujuno", "uatom", 5, None, Some(&local()), &vec![]);
    assert_eq!(quotes[3].error(), Some("{Query to https://lcd failed: No answer.}".to_string()));
    assert_eq!(quotes[3].token_out(), None);
}

#[test]
fn answer_that_is_no_number_is_a_failed_query() {
    let agg = aggregator();
    let replies = vec![None, None, None, Some(Ok("12.5".to_string()))];
    let quotes = get_quotes(&agg, "ujuno", "uatom", 5, None, Some(&local()), &replies);
    assert_eq!(
        quotes[3].error(),
        Some("{Query to https://lcd failed: Not a decimal number in range: 12.5}".to_string())
    );
}

#[test]
fn registered_configuration_is_used_where_none_is_supplied() {
    let agg = aggregator();
    let steps = start_quotes(&agg, "ujuno", "uatom", 9, None, None);
    assert_eq!(steps.len(), 4);
    for step in &steps[..3] {
        assert_eq!(step, &Err(TracyError::ConfigMissing { chain: "osmosis".to_string() }));
    }
    assert_eq!(
        steps[3],
        Ok(QuoteStep::Ask(get_price_for("https://lcd-juno.itastakers.com", "juno1pool", 9, false)))
    );
}

#[test]
fn chain_without_configuration_fails_its_pools_only() {
    let mut configs = ChainConfigs::new();
    configs.insert("osmosis".to_string(), local());
    let agg = DexAgg::new(
        vec![osmo("good", vec![asset("ujuno", "1000000"), asset("uatom", "2000000")])],
        vec![juno("juno1pool")],
        Some(configs),
    );
    let quotes = get_quotes(&agg, "ujuno", "uatom", 100_000, None, None, &vec![]);
    assert_eq!(
        quotes,
        vec![
            priced(100_000, 200_000, "good"),
            Quote::failed(&TracyError::ConfigMissing { chain: "juno".to_string() }),
        ]
    );
    assert_eq!(quotes[1].error(), Some("{No config for chain juno}".to_string()));
}

#[test]
fn chain_filter_narrows_the_candidates() {
    let agg = aggregator();
    let on_juno = start_quotes(&agg, "ujuno", "uatom", 1, Some("juno"), Some(&local()));
    assert_eq!(on_juno.len(), 1);
    assert!(matches!(on_juno[0], Ok(QuoteStep::Ask(PriceQuery::ContractPrice { .. }))));
    let on_osmosis = start_quotes(&agg, "ujuno", "uatom", 1, Some("osmosis"), Some(&local()));
    assert_eq!(on_osmosis.len(), 3);
    assert_eq!(start_quotes(&agg, "ujuno", "uatom", 1, Some("terra"), Some(&local())).len(), 0);
}

#[test]
fn pair_that_no_pool_holds_gives_an_empty_batch() {
    let agg = aggregator();
    assert_eq!(get_quotes(&agg, "uluna", "uatom", 1, None, Some(&local()), &vec![]), vec![]);
}

#[test]
fn finishing_the_steps_gives_the_same_batch() {
    let agg = aggregator();
    let replies = vec![None, None, None, Some(Ok("41".to_string()))];
    let steps = start_quotes(&agg, "ujuno", "uatom", 100, None, Some(&local()));
    let finished = finish_quotes(steps, 100, &replies);
    assert_eq!(finished, get_quotes(&agg, "ujuno", "uatom", 100, None, Some(&local()), &replies));
}

#[test]
fn each_step_ends_in_its_own_way() {
    let done = finish_quote(Ok(QuoteStep::Done(priced(1, 2, "p"))), 1, Some(Ok("9".to_string())));
    assert_eq!(done, priced(1, 2, "p"));
    let failed = finish_quote(Err(TracyError::UnsupportedPoolShape { fault: ShapeFault::NoValue }), 1, Some(Ok("9".to_string())));
    assert_eq!(failed.error(), Some("{Quote is undefined or does not fit 128 bits.}".to_string()));
    let query = get_price_for("https://lcd", "juno1pool", 1, true);
    let asked = finish_quote(Ok(QuoteStep::Ask(query)), 1, Some(Ok("9".to_string())));
    assert_eq!(asked, priced(1, 9, "juno1pool"));
}

#[test]
fn reply_becomes_a_quote_or_a_failed_query() {
    let address = "osmo1pool".to_string();
    let endpoint = "http://grpc".to_string();
    assert_eq!(
        quote_from_reply(10, &address, &endpoint, Ok("25".to_string())),
        Ok(priced(10, 25, "osmo1pool"))
    );
    assert_eq!(
        quote_from_reply(10, &address, &endpoint, Ok("".to_string())),
        Err(TracyError::ExternalQueryFailure {
            endpoint: "http://grpc".to_string(),
            cause: "Not a decimal number in range: ".to_string(),
        })
    );
    assert_eq!(
        quote_from_reply(10, &address, &endpoint, Err(TracyError::CacheIOFailure { cause: "x".to_string() })),
        Err(TracyError::CacheIOFailure { cause: "x".to_string() })
    );
}

#[test]
fn quote_holds_an_amount_or_an_error() {
    let good = priced(1, 2, "p");
    assert_eq!((good.token_in(), good.token_out()), (Some(1), Some(2)));
    assert_eq!(good.pool_address(), Some("p".to_string()));
    assert_eq!(good.error(), None);
    let bad = Quote::from_result(Err(TracyError::DenomNotFound { denom: "uluna".to_string() }));
    assert_eq!(bad.token_out(), None);
    assert_eq!(bad.error(), Some("{Cannot find denom: uluna}".to_string()));
    assert_eq!(Quote::from_result(Ok(priced(1, 2, "p"))), good);
    assert_eq!(good.clone(), good);
}

#[test]
fn every_error_has_its_sentence() {
    let text = |s: &str| s.to_string();
    assert_eq!(TracyError::ConfigMissing { chain: text("juno") }.message(), "No config for chain juno");
    assert_eq!(
        TracyError::UnsupportedPoolShape { fault: ShapeFault::AssetCount }.message(),
        "Can only calculate quote for pools with 2 assets, estimate quote instead."
    );
    assert_eq!(TracyError::DenomNotFound { denom: text("u") }.message(), "Cannot find denom: u");
    assert_eq!(
        TracyError::ExternalQueryFailure { endpoint: text("e"), cause: text("c") }.message(),
        "Query to e failed: c"
    );
    assert_eq!(TracyError::AddressNotFound { address: text("a") }.message(), "No pool with address a");
    assert_eq!(
        TracyError::CacheIOFailure { cause: text("denied") }.message(),
        "Denom trace cache unavailable: denied"
    );
    assert_eq!(
        TracyError::UnsupportedPoolShape { fault: ShapeFault::NotANumber { text: text("1e3") } }.message(),
        "Not a decimal number in range: 1e3"
    );
    assert_eq!(ShapeFault::NotANumber { text: text("x") }.message(), "Not a decimal number in range: x");
    assert_eq!(not_a_number_text("1.5"), "Not a decimal number in range: 1.5");
    assert_eq!(TracyError::UnsupportedPoolShape { fault: ShapeFault::NoValue }.message(), "Quote is undefined or does not fit 128 bits.");
    let error = TracyError::ExternalQueryFailure { endpoint: text("e"), cause: text("c") };
    assert_eq!(error.clone(), error);
}

#[test]
fn estimate_answer_is_priced_under_the_pool_address() {
    let query = PriceQuery::SwapEstimate {
        endpoint: "http://grpc".to_string(),
        sender: "osmo1pool".to_string(),
        pool_id: 1,
        token_in: "5uosmo".to_string(),
        token_out_denom: "uatom".to_string(),
    };
    assert_eq!(query.endpoint(), "http://grpc");
    assert_eq!(query.pool_address(), "osmo1pool");
    assert_eq!(
        query.failure("timed out".to_string()),
        TracyError::ExternalQueryFailure { endpoint: "http://grpc".to_string(), cause: "timed out".to_string() }
    );
    let copy = query.clone();
    assert_eq!(copy, query);
    let quote = finish_quote(Ok(QuoteStep::Ask(query)), 5, Some(Ok("12".to_string())));
    assert_eq!(quote, priced(5, 12, "osmo1pool"));
    let contract = get_price_for("https://lcd", "juno1pool", 5, false);
    assert_eq!(contract.endpoint(), "https://lcd");
    assert_eq!(contract.pool_address(), "juno1pool");
}

#[test]
fn estimates_are_asked_where_the_configuration_says_so() {
    let mut configs = ChainConfigs::defaults();
    configs.insert(
        "osmosis".to_string(),
        PoolConfig { grpc_url: Some("http://grpc".to_string()), rest_url: None, rpc_url: None, estimate_quote: true },
    );
    let agg = DexAgg::new(
        vec![osmo("good", vec![asset("ujuno", "1000000"), asset("uatom", "2000000")])],
        vec![],
        Some(configs),
    );
    let steps = start_quotes(&agg, "ujuno", "uatom", 100_000, None, None);
    assert_eq!(
        steps,
        vec![Ok(QuoteStep::Ask(PriceQuery::SwapEstimate {
            endpoint: "http://grpc".to_string(),
            sender: "good".to_string(),
            pool_id: 1,
            token_in: "100000ujuno".to_string(),
            token_out_denom: "uatom".to_string(),
        }))]
    );
    let quotes = finish_quotes(steps, 100_000, &vec![Some(Ok("199000".to_string()))]);
    assert_eq!(quotes, vec![priced(100_000, 199_000, "good")]);
}

#[test]
fn question_names_its_address_and_parameters() {
    let estimate = PriceQuery::SwapEstimate {
        endpoint: "http://node".to_string(),
        sender: "osmo1pool".to_string(),
        pool_id: 561,
        token_in: "5uosmo".to_string(),
        token_out_denom: "ibc/AAA".to_string(),
    };
    assert_eq!(estimate.request_url(), "http://node/osmosis/gamm/v1beta1/561/estimate/swap_exact_amount_in");
    let pair = |name: &str, value: &str| (name.to_string(), value.to_string());
    assert_eq!(
        estimate.request_parameters(),
        vec![
            pair("sender", "osmo1pool"),
            pair("token_in", "5uosmo"),
            pair("routes.pool_id", "561"),
            pair("routes.token_out_denom", "ibc/AAA"),
        ]
    );
    let contract = get_price_for("https://lcd", "juno1pool", 5, false);
    match &contract {
        PriceQuery::ContractPrice { url, .. } => assert_eq!(&contract.request_url(), url),
        _ => panic!("a contract question"),
    }
    assert_eq!(contract.request_parameters(), vec![pair("encoding", "base64")]);
    assert_eq!(contract_request_parameters(), vec![pair("encoding", "base64")]);
}
