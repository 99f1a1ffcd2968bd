use serde_json::Value;
use tracy::dex::AnyPool;
use tracy::dex::DexAgg;
use tracy::pools::juno_pool::JunoDenom;
use tracy::pools::juno_pool::JunoToken;
use tracy::pools::juno_pool::WasmPool;
use tracy::pools::osmosis_pool::OsmosisPool;
use tracy::pools::osmosis_pool::OsmosisPoolAssets;
use tracy::pools::osmosis_pool::OsmosisPoolParams;
use tracy::pools::osmosis_pool::OsmosisPoolToken;
use tracy::Pool;

fn text(value: &str) -> Value {
    Value::String(value.to_string())
}

fn optional(value: &Option<String>) -> Value {
    match value {
        Some(v) => text(v),
        None => Value::Null,
    }
}

fn object(fields: Vec<(&str, Value)>) -> Value {
    let mut map = serde_json::Map::new();
    for (name, value) in fields {
        map.insert(name.to_string(), value);
    }
    Value::Object(map)
}

fn token_record(token: &OsmosisPoolToken) -> Value {
    object(vec![
        ("denom", text(&token.denom)),
        ("amount", text(&token.amount)),
        ("native_name", optional(&token.native_name)),
    ])
}

fn osmosis_record(pool: &OsmosisPool) -> Value {
    let assets = pool
        .pool_assets
        .iter()
        .map(|a| object(vec![("token", token_record(&a.token)), ("weight", text(&a.weight))]))
        .collect();
    object(vec![
        ("pool_address", text(&pool.pool_address)),
        ("id", text(&pool.id)),
        (
            "pool_params",
            object(vec![
                ("swap_fee", text(&pool.pool_params.swap_fee)),
                ("exit_fee", text(&pool.pool_params.exit_fee)),
            ]),
        ),
        ("future_pool_governor", text(&pool.future_pool_governor)),
        ("total_shares", token_record(&pool.total_shares)),
        ("pool_assets", Value::Array(assets)),
        ("total_weight", text(&pool.total_weight)),
        ("chain", optional(&pool.chain)),
    ])
}

fn juno_token_record(token: &Option<JunoToken>) -> Value {
    match token {
        None => Value::Null,
        Some(t) => object(vec![
            ("name", optional(&t.name)),
            ("symbol", optional(&t.symbol)),
            ("total_supply", optional(&t.total_supply)),
            ("address", optional(&t.address)),
            ("decimals", t.decimals.map(Value::from).unwrap_or(Value::Null)),
        ]),
    }
}

fn juno_denom_record(denom: &JunoDenom) -> Value {
    object(vec![("native", optional(&denom.native)), ("cw20", optional(&denom.cw20))])
}

fn juno_record(pool: &WasmPool) -> Value {
    object(vec![
        ("pool_address", optional(&pool.pool_address)),
        ("lp_token_address", text(&pool.lp_token_address)),
        ("lp_token_supply", text(&pool.lp_token_supply)),
        ("token1", juno_token_record(&pool.token1)),
        ("token1_denom", juno_denom_record(&pool.token1_denom)),
        ("token1_reserve", text(&pool.token1_reserve)),
        ("token2", juno_token_record(&pool.token2)),
        ("token2_denom", juno_denom_record(&pool.token2_denom)),
        ("token2_reserve", text(&pool.token2_reserve)),
    ])
}

fn read_text(value: &Value, name: &str) -> String {
    value[name].as_str().unwrap().to_string()
}

fn read_optional(value: &Value, name: &str) -> Option<String> {
    value[name].as_str().map(|v| v.to_string())
}

fn read_token(value: &Value) -> OsmosisPoolToken {
    OsmosisPoolToken {
        denom: read_text(value, "denom"),
        amount: read_text(value, "amount"),
        native_name: read_optional(value, "native_name"),
    }
}

fn read_osmosis(value: &Value) -> OsmosisPool {
    OsmosisPool {
        pool_address: read_text(value, "pool_address"),
        id: read_text(value, "id"),
        pool_params: OsmosisPoolParams {
            swap_fee: read_text(&value["pool_params"], "swap_fee"),
            exit_fee: read_text(&value["pool_params"], "exit_fee"),
        },
        future_pool_governor: read_text(value, "future_pool_governor"),
        total_shares: read_token(&value["total_shares"]),
        pool_assets: value["pool_assets"]
            .as_array()
            .unwrap()
            .iter()
            .map(|a| OsmosisPoolAssets {
                token: read_token(&a["token"]),
                weight: read_text(a, "weight"),
                decimals: None,
            })
            .collect(),
        total_weight: read_text(value, "total_weight"),
        chain: read_optional(value, "chain"),
    }
}

fn read_juno_token(value: &Value) -> Option<JunoToken> {
    if value.is_null() {
        return None;
    }
    Some(JunoToken {
        name: read_optional(value, "name"),
        symbol: read_optional(value, "symbol"),
        total_supply: read_optional(value, "total_supply"),
        address: read_optional(value, "address"),
        decimals: value["decimals"].as_u64(),
    })
}

fn read_juno_denom(value: &Value) -> JunoDenom {
    JunoDenom { native: read_optional(value, "native"), cw20: read_optional(value, "cw20") }
}

fn read_juno(value: &Value) -> WasmPool {
    WasmPool {
        pool_address: read_optional(value, "pool_address"),
        lp_token_address: read_text(value, "lp_token_address"),
        lp_token_supply: read_text(value, "lp_token_supply"),
        token1: read_juno_token(&value["token1"]),
        token1_denom: read_juno_denom(&value["token1_denom"]),
        token1_reserve: read_text(value, "token1_reserve"),
        token2: read_juno_token(&value["token2"]),
        token2_denom: read_juno_denom(&value["token2_denom"]),
        token2_reserve: read_text(value, "token2_reserve"),
    }
}

fn asset(denom: &str, amount: &str, weight: &str, native: Option<&str>) -> OsmosisPoolAssets {
    OsmosisPoolAssets {
        token: OsmosisPoolToken {
            denom: denom.to_string(),
            amount: amount.to_string(),
            native_name: native.map(|n| n.to_string()),
        },
        weight: weight.to_string(),
        decimals: None,
    }
}

fn osmo(address: &str, assets: Vec<OsmosisPoolAssets>) -> OsmosisPool {
    OsmosisPool {
        pool_address: address.to_string(),
        id: "7".to_string(),
        pool_params: OsmosisPoolParams { swap_fee: "0.003".to_string(), exit_fee: "0".to_string() },
        future_pool_governor: "24h".to_string(),
        total_shares: OsmosisPoolToken {
            denom: "gamm/pool/7".to_string(),
            amount: "100".to_string(),
            native_name: None,
        },
        pool_assets: assets,
        total_weight: "3".to_string(),
        chain: Some("osmosis".to_string()),
    }
}

fn juno(address: &str, first: &str, second: Option<&str>) -> WasmPool {
    let token = |symbol: Option<&str>| JunoToken {
        name: None,
        symbol: symbol.map(|s| s.to_string()),
        total_supply: Some("12".to_string()),
        address: None,
        decimals: Some(6),
    };
    WasmPool {
        pool_address: Some(address.to_string()),
        lp_token_address: "juno1lp".to_string(),
        lp_token_supply: "10".to_string(),
        token1: Some(token(Some(first))),
        token1_denom: JunoDenom { native: Some(first.to_string()), cw20: None },
        token1_reserve: "1000".to_string(),
        token2: second.map(|s| token(Some(s))),
        token2_denom: JunoDenom { native: None, cw20: Some("juno1cw".to_string()) },
        token2_reserve: "2000".to_string(),
    }
}

#[test]
fn reloaded_snapshot_gives_the_same_lookups() {
    let osmo_pools = vec![
        osmo("osmo1", vec![asset("uosmo", "5", "1", Some("uosmo")), asset("ibc/A", "7", "2", Some("uatom"))]),
        osmo("osmo2", vec![asset("ibc/J", "1", "1", Some("ujuno")), asset("uion", "3", "1", None)]),
        osmo("osmo3", vec![]),
    ];
    let juno_pools = vec![juno("juno1", "ujuno", Some("uatom")), juno("juno2", "ujuno", None)];
    let osmo_text =
        serde_json::to_string(&Value::Array(osmo_pools.iter().map(osmosis_record).collect())).unwrap();
    let juno_text =
        serde_json::to_string(&Value::Array(juno_pools.iter().map(juno_record).collect())).unwrap();
    let osmo_back: Value = serde_json::from_str(&osmo_text).unwrap();
    let juno_back: Value = serde_json::from_str(&juno_text).unwrap();
    let reloaded = DexAgg::new(
        osmo_back.as_array().unwrap().iter().map(read_osmosis).collect(),
        juno_back.as_array().unwrap().iter().map(read_juno).collect(),
        None,
    );
    let first = DexAgg::new(osmo_pools, juno_pools, None);
    assert_eq!(first.pools(), reloaded.pools());
    for denom in ["uosmo", "uatom", "ujuno", "uion", "ibc/A", "ibc/J", "uluna", ""] {
        let before: Vec<AnyPool> = first.with_denom(denom);
        let after: Vec<AnyPool> = reloaded.with_denom(denom);
        assert_eq!(before.len(), after.len(), "{}", denom);
        for pool in &before {
            let twin = after.iter().find(|p| p.address() == pool.address()).unwrap();
            assert_eq!(twin.chain(), pool.chain());
            assert_eq!(twin.token_denoms(), pool.token_denoms());
            assert_eq!(twin, pool);
        }
    }
}
