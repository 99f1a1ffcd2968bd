use tracy::error::ShapeFault;
use tracy::error::TracyError;
use tracy::pools::osmosis_pool::OsmosisPool;
use tracy::pools::osmosis_pool::OsmosisPoolAssets;
use tracy::pools::osmosis_pool::OsmosisPoolParams;
use tracy::pools::osmosis_pool::OsmosisPoolToken;
use tracy::pools::weighted::checked_product3;
use tracy::pools::weighted::checked_product4;
use tracy::pools::weighted::compute_weighted_quote;
use tracy::query::PriceQuery;
use tracy::query::QuoteStep;
use tracy::Pool;
use tracy::PoolConfig;

fn asset(denom: &str, amount: &str, weight: &str, native: Option<&str>) -> OsmosisPoolAssets {
    OsmosisPoolAssets {
        token: OsmosisPoolToken {
            denom: denom.to_string(),
            amount: amount.to_string(),
            native_name: native.map(|n| n.to_string()),
        },
        weight: weight.to_string(),
        decimals: None,
    }
}

fn pool(address: &str, id: &str, assets: Vec<OsmosisPoolAssets>) -> OsmosisPool {
    OsmosisPool {
        pool_address: address.to_string(),
        id: id.to_string(),
        pool_params: OsmosisPoolParams { swap_fee: "0.003".to_string(), exit_fee: "0".to_string() },
        future_pool_governor: "24h".to_string(),
        total_shares: OsmosisPoolToken {
            denom: format!("gamm/pool/{}", id),
            amount: "100".to_string(),
            native_name: None,
        },
        pool_assets: assets,
        total_weight: "2".to_string(),
        chain: Some("osmosis".to_string()),
    }
}

fn juno_atom() -> OsmosisPool {
    pool(
        "osmo1pool",
        "1",
        vec![
            asset("ujuno", "1000000", "1", Some("ujuno")),
            asset("ibc/27394F", "2000000", "1", Some("uatom")),
        ],
    )
}

fn local() -> PoolConfig {
    PoolConfig { grpc_url: None, rest_url: None, rpc_url: None, estimate_quote: false }
}

fn estimate(grpc: Option<&str>) -> PoolConfig {
    PoolConfig {
        grpc_url: grpc.map(|g| g.to_string()),
        rest_url: None,
        rpc_url: None,
        estimate_quote: true,
    }
}

#[test]
fn quote_of_equal_weights_follows_the_reserves() {
    let p = juno_atom();
    let step = p.get_quote(100_000, "ujuno", "uatom", &local()).unwrap();
    match step {
        QuoteStep::Done(q) => {
            assert_eq!(q.token_in(), Some(100_000));
            assert_eq!(q.token_out(), Some(200_000));
            assert_eq!(q.pool_address(), Some("osmo1pool".to_string()));
            assert_eq!(q.error(), None);
        }
        QuoteStep::Ask(_) => panic!("a local quote asks nothing"),
    }
}

#[test]
fn quote_is_found_by_raw_denom_too() {
    let p = juno_atom();
    let q = p.local_quote(100_000, "ujuno", "ibc/27394F").unwrap();
    assert_eq!(q.token_out(), Some(200_000));
    let back = p.local_quote(100_000, "uatom", "ujuno").unwrap();
    assert_eq!(back.token_out(), Some(50_000));
}

#[test]
fn quote_rounds_down() {
    let p = pool(
        "osmo1pool",
        "1",
        vec![asset("a", "3", "1", None), asset("b", "2", "1", None)],
    );
    assert_eq!(p.local_quote(1, "a", "b").unwrap().token_out(), Some(0));
    assert_eq!(p.local_quote(2, "a", "b").unwrap().token_out(), Some(1));
    assert_eq!(p.local_quote(4, "a", "b").unwrap().token_out(), Some(2));
    assert_eq!(p.local_quote(0, "a", "b").unwrap().token_out(), Some(0));
}

#[test]
fn quote_weighs_the_reserves() {
    let p = pool(
        "osmo1pool",
        "1",
        vec![asset("a", "1000", "1", None), asset("b", "1000", "3", None)],
    );
    assert_eq!(p.local_quote(100, "a", "b").unwrap().token_out(), Some(300));
    assert_eq!(p.local_quote(100, "b", "a").unwrap().token_out(), Some(33));
}

#[test]
fn quote_diverges_once_decimals_differ() {
    let same = juno_atom();
    let mut differing = juno_atom();
    differing.pool_assets[1].decimals = Some(18);
    let base = same.local_quote(100_000, "ujuno", "uatom").unwrap().token_out();
    let other = differing.local_quote(100_000, "ujuno", "uatom").unwrap().token_out();
    assert_eq!(base, Some(200_000));
    assert_eq!(other, Some(600_000));
    assert_ne!(base, other);
    differing.pool_assets[0].decimals = Some(18);
    assert_eq!(differing.local_quote(100_000, "ujuno", "uatom").unwrap().token_out(), Some(200_000));
}

#[test]
fn quote_never_falls_when_the_amount_grows() {
    let p = pool(
        "osmo1pool",
        "1",
        vec![asset("a", "977", "3", None), asset("b", "1013", "7", None)],
    );
    let mut last = 0u128;
    for amount in 0..500u128 {
        let out = p.local_quote(amount, "a", "b").unwrap().token_out().unwrap();
        assert!(out >= last, "amount {} gave {} after {}", amount, out, last);
        last = out;
    }
}

#[test]
fn three_assets_have_no_local_quote() {
    let p = pool(
        "osmo1pool",
        "1",
        vec![
            asset("a", "1000", "1", None),
            asset("b", "1000", "1", None),
            asset("c", "1000", "1", None),
        ],
    );
    assert_eq!(p.get_quote(10, "a", "b", &local()), Err(TracyError::UnsupportedPoolShape { fault: ShapeFault::AssetCount }));
    assert_eq!(p.calculate_quote(10, 1000, 1000, 1, 1, 6, 6), Err(TracyError::UnsupportedPoolShape { fault: ShapeFault::AssetCount }));
}

#[test]
fn one_asset_has_no_local_quote() {
    let p = pool("osmo1pool", "1", vec![asset("a", "1000", "1", Some("b"))]);
    assert_eq!(p.local_quote(10, "a", "b"), Err(TracyError::UnsupportedPoolShape { fault: ShapeFault::AssetCount }));
}

#[test]
fn unknown_denom_is_reported_by_name() {
    let p = juno_atom();
    assert_eq!(
        p.local_quote(10, "uosmo", "uatom"),
        Err(TracyError::DenomNotFound { denom: "uosmo".to_string() })
    );
    assert_eq!(
        p.local_quote(10, "ujuno", "uosmo"),
        Err(TracyError::DenomNotFound { denom: "uosmo".to_string() })
    );
    assert_eq!(
        p.local_quote(10, "x", "y"),
        Err(TracyError::DenomNotFound { denom: "x".to_string() })
    );
}

#[test]
fn unknown_denom_comes_before_the_shape() {
    let p = pool(
        "osmo1pool",
        "1",
        vec![
            asset("a", "1000", "1", None),
            asset("b", "1000", "1", None),
            asset("c", "1000", "1", None),
        ],
    );
    assert_eq!(
        p.local_quote(10, "a", "z"),
        Err(TracyError::DenomNotFound { denom: "z".to_string() })
    );
}

#[test]
fn reserve_that_is_no_number_is_reported() {
    let p = pool(
        "osmo1pool",
        "1",
        vec![asset("a", "12.5", "1", None), asset("b", "1000", "one", None)],
    );
    assert_eq!(
        p.local_quote(10, "a", "b"),
        Err(TracyError::UnsupportedPoolShape { fault: ShapeFault::NotANumber { text: "12.5".to_string() } })
    );
    assert_eq!(
        p.local_quote(10, "b", "a"),
        Err(TracyError::UnsupportedPoolShape { fault: ShapeFault::NotANumber { text: "12.5".to_string() } })
    );
    let q = pool(
        "osmo1pool",
        "1",
        vec![asset("a", "12", "1", None), asset("b", "1000", "one", None)],
    );
    assert_eq!(
        q.local_quote(10, "a", "b"),
        Err(TracyError::UnsupportedPoolShape { fault: ShapeFault::NotANumber { text: "one".to_string() } })
    );
}

#[test]
fn empty_reserve_on_the_way_in_has_no_quote() {
    let p = pool(
        "osmo1pool",
        "1",
        vec![asset("a", "0", "1", None), asset("b", "1000", "1", None)],
    );
    assert_eq!(p.local_quote(10, "a", "b"), Err(TracyError::UnsupportedPoolShape { fault: ShapeFault::NoValue }));
    assert_eq!(p.local_quote(10, "b", "a").unwrap().token_out(), Some(0));
    assert_eq!(
        p.get_quote(10, "a", "b", &local()),
        Err(TracyError::UnsupportedPoolShape { fault: ShapeFault::NoValue })
    );
}

#[test]
fn empty_weight_on_the_way_in_has_no_quote() {
    let p = pool(
        "osmo1pool",
        "1",
        vec![asset("a", "1000", "0", None), asset("b", "1000", "1", None)],
    );
    assert_eq!(
        p.get_quote(10, "a", "b", &local()),
        Err(TracyError::UnsupportedPoolShape { fault: ShapeFault::NoValue })
    );
    assert_eq!(p.local_quote(10, "b", "a").unwrap().token_out(), Some(0));
    let unset = pool(
        "osmo1pool",
        "1",
        vec![asset("a", "1000", "1", None), asset("b", "1000", "1", None)],
    );
    let mut zero_decimals = unset;
    zero_decimals.pool_assets[0].decimals = Some(0);
    assert_eq!(
        zero_decimals.local_quote(10, "a", "b"),
        Err(TracyError::UnsupportedPoolShape { fault: ShapeFault::NoValue })
    );
}

#[test]
fn every_failure_of_a_local_quote_is_a_listed_kind() {
    let pools = vec![
        pool("p", "1", vec![]),
        pool("p", "1", vec![asset("a", "0", "0", None), asset("b", "x", "1", None)]),
        pool("p", "1", vec![asset("a", "1", "1", None), asset("b", "1", "1", None), asset("c", "1", "1", None)]),
        pool("p", "1", vec![asset("a", "340282366920938463463374607431768211455", "9", None), asset("b", "2", "2", None)]),
    ];
    for p in &pools {
        for (token_in, token_out) in [("a", "b"), ("b", "a"), ("a", "z"), ("z", "a"), ("a", "a")] {
            for amount in [0u128, 1, u128::MAX] {
                match p.get_quote(amount, token_in, token_out, &local()) {
                    Ok(_) => {}
                    Err(TracyError::DenomNotFound { .. }) => {}
                    Err(TracyError::UnsupportedPoolShape { .. }) => {}
                    Err(other) => panic!("unexpected failure {:?}", other),
                }
            }
        }
    }
}

#[test]
fn quote_beyond_128_bits_is_out_of_range() {
    let p = pool(
        "osmo1pool",
        "1",
        vec![
            asset("a", "1", "1", None),
            asset("b", "340282366920938463463374607431768211455", "1", None),
        ],
    );
    assert_eq!(p.local_quote(1, "a", "b"), Err(TracyError::UnsupportedPoolShape { fault: ShapeFault::NoValue }));
    assert_eq!(p.local_quote(0, "a", "b").unwrap().token_out(), Some(0));
}

#[test]
fn calculate_quote_is_the_formula() {
    let p = juno_atom();
    assert_eq!(p.calculate_quote(100_000, 1_000_000, 2_000_000, 1, 1, 6, 6), Ok(200_000));
    assert_eq!(p.calculate_quote(7, 3, 5, 2, 4, 6, 6), Ok((5 * 4 * 6 * 7) / (3 * 2 * 6)));
    assert_eq!(p.calculate_quote(7, 3, 5, 2, 4, 6, 18), Ok((5 * 4 * 18 * 7) / (3 * 2 * 6)));
    assert_eq!(p.calculate_quote(7, 3, 5, 0, 4, 6, 6), Err(TracyError::UnsupportedPoolShape { fault: ShapeFault::NoValue }));
    assert_eq!(p.calculate_quote(7, 3, 5, 2, 4, 0, 6), Err(TracyError::UnsupportedPoolShape { fault: ShapeFault::NoValue }));
    assert_eq!(p.calculate_quote(u128::MAX, 1, 1, 1, 1, 6, 6), Err(TracyError::UnsupportedPoolShape { fault: ShapeFault::NoValue }));
    assert_eq!(p.calculate_quote(u128::MAX / 6, 1, 1, 1, 1, 6, 6), Ok(u128::MAX / 6));
}

#[test]
fn checked_products_stop_at_the_range() {
    assert_eq!(checked_product3(2, 3, 4), Some(24));
    assert_eq!(checked_product3(u128::MAX, 1, 1), Some(u128::MAX));
    assert_eq!(checked_product3(u128::MAX, 2, 1), None);
    assert_eq!(checked_product3(u128::MAX, 2, 0), Some(0));
    assert_eq!(checked_product4(2, 3, 4, 5), Some(120));
    assert_eq!(checked_product4(u128::MAX, u128::MAX, u128::MAX, 0), Some(0));
    assert_eq!(checked_product4(0, u128::MAX, u128::MAX, u128::MAX), Some(0));
    assert_eq!(checked_product4(1 << 64, 1 << 63, 1, 2), None);
    assert_eq!(checked_product4(1 << 64, 1 << 63, 1, 1), Some(1 << 127));
}

#[test]
fn weighted_quote_has_no_value_without_divisor() {
    assert_eq!(compute_weighted_quote(100, 0, 5, 1, 1, 6, 6), None);
    assert_eq!(compute_weighted_quote(100, 10, 5, 1, 1, 6, 6), Some(50));
    assert_eq!(compute_weighted_quote(100, u128::MAX, 5, 2, 1, 6, 6), None);
}

#[test]
fn asset_for_denom_finds_the_first_named() {
    let p = pool(
        "osmo1pool",
        "1",
        vec![
            asset("ibc/AAA", "1", "1", Some("uatom")),
            asset("uatom", "1", "1", None),
            asset("uosmo", "1", "1", Some("uosmo")),
        ],
    );
    assert_eq!(p.asset_for_denom("uatom"), Some(0));
    assert_eq!(p.asset_for_denom("ibc/AAA"), Some(0));
    assert_eq!(p.asset_for_denom("uosmo"), Some(2));
    assert_eq!(p.asset_for_denom("ujuno"), None);
    assert_eq!(pool("x", "1", vec![]).asset_for_denom("uatom"), None);
}

#[test]
fn token_denoms_lists_raw_then_native() {
    let p = pool(
        "osmo1pool",
        "1",
        vec![
            asset("ibc/AAA", "1", "1", Some("uatom")),
            asset("uion", "1", "1", None),
            asset("uosmo", "1", "1", Some("uosmo")),
        ],
    );
    assert_eq!(p.token_denoms(), vec!["ibc/AAA", "uion", "uosmo", "uatom", "uosmo"]);
    assert!(p.has_denom("uatom"));
    assert!(p.has_denom("uion"));
    assert!(!p.has_denom("ujuno"));
    for denom in p.token_denoms() {
        assert!(p.has_denom(&denom));
    }
}

#[test]
fn osmosis_pool_names_its_chain_and_address() {
    let p = juno_atom();
    assert_eq!(p.chain(), "osmosis");
    assert_eq!(p.address(), Ok("osmo1pool".to_string()));
}

#[test]
fn estimate_hands_out_the_question() {
    let p = juno_atom();
    let step = p.get_quote(100_000, "uatom", "ujuno", &estimate(Some("http://grpc:9090"))).unwrap();
    assert_eq!(
        step,
        QuoteStep::Ask(PriceQuery::SwapEstimate {
            endpoint: "http://grpc:9090".to_string(),
            sender: "osmo1pool".to_string(),
            pool_id: 1,
            token_in: "100000ibc/27394F".to_string(),
            token_out_denom: "ujuno".to_string(),
        })
    );
}

#[test]
fn estimate_needs_an_endpoint_then_an_id_then_the_denoms() {
    let p = pool("osmo1pool", "first", vec![asset("a", "1", "1", None), asset("b", "1", "1", None)]);
    assert_eq!(
        p.get_quote(1, "x", "y", &estimate(None)),
        Err(TracyError::ConfigMissing { chain: "osmosis".to_string() })
    );
    assert_eq!(
        p.get_quote(1, "x", "y", &estimate(Some("g"))),
        Err(TracyError::ExternalQueryFailure {
            endpoint: "g".to_string(),
            cause: "Not a decimal number in range: first".to_string(),
        })
    );
    let q = pool("osmo1pool", "7", vec![asset("a", "1", "1", None), asset("b", "1", "1", None)]);
    assert_eq!(
        q.get_quote(1, "x", "b", &estimate(Some("g"))),
        Err(TracyError::DenomNotFound { denom: "x".to_string() })
    );
    assert_eq!(
        q.get_quote(1, "a", "y", &estimate(Some("g"))),
        Err(TracyError::DenomNotFound { denom: "y".to_string() })
    );
}

#[test]
fn estimate_works_on_any_number_of_assets() {
    let p = pool(
        "osmo1pool",
        "12",
        vec![asset("a", "1", "1", None), asset("b", "1", "1", None), asset("c", "1", "1", None)],
    );
    let step = p.get_quote(5, "c", "a", &estimate(Some("g"))).unwrap();
    assert!(matches!(step, QuoteStep::Ask(PriceQuery::SwapEstimate { pool_id: 12, .. })));
}

#[test]
fn cloned_pool_is_the_same_pool() {
    let p = juno_atom();
    assert_eq!(p.clone(), p);
}

#[test]
fn well_formed_pool_has_numbers_only() {
    assert!(juno_atom().well_formed());
    assert!(pool("x", "1", vec![]).well_formed());
    let bad_weight = pool("x", "1", vec![asset("a", "1", "1", None), asset("b", "2", "", None)]);
    assert!(!bad_weight.well_formed());
    assert!(bad_weight.pool_assets[0].well_formed());
    assert!(!bad_weight.pool_assets[1].well_formed());
    let bad_amount = pool("x", "1", vec![asset("a", "-1", "1", None)]);
    assert!(!bad_amount.well_formed());
}
