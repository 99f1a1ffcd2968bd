use petgraph::dot::Dot;
use petgraph::graph::Graph;
use petgraph::graph::NodeIndex;
use petgraph::Undirected;
use tracy::graph::collect_links;
use tracy::graph::token_graph;
use tracy::graph::token_graph_dot;
use tracy::graph::GraphError;
use tracy::graph::TokenLink;
use tracy::pools::juno_pool::JunoDenom;
use tracy::pools::juno_pool::JunoToken;
use tracy::pools::juno_pool::WasmPool;
use tracy::pools::osmosis_pool::OsmosisPool;
use tracy::pools::osmosis_pool::OsmosisPoolAssets;
use tracy::pools::osmosis_pool::OsmosisPoolParams;
use tracy::pools::osmosis_pool::OsmosisPoolToken;

fn asset(denom: &str, amount: &str, native: Option<&str>) -> OsmosisPoolAssets {
    OsmosisPoolAssets {
        token: OsmosisPoolToken {
            denom: denom.to_string(),
            amount: amount.to_string(),
            native_name: native.map(|n| n.to_string()),
        },
        weight: "1".to_string(),
        decimals: None,
    }
}

fn osmo(id: &str, assets: Vec<OsmosisPoolAssets>) -> OsmosisPool {
    OsmosisPool {
        pool_address: format!("osmo{}", id),
        id: id.to_string(),
        pool_params: OsmosisPoolParams { swap_fee: "0".to_string(), exit_fee: "0".to_string() },
        future_pool_governor: String::new(),
        total_shares: OsmosisPoolToken {
            denom: format!("gamm/pool/{}", id),
            amount: "1".to_string(),
            native_name: None,
        },
        pool_assets: assets,
        total_weight: "2".to_string(),
        chain: Some("osmosis".to_string()),
    }
}

fn juno(address: Option<&str>, first: (Option<&str>, Option<&str>), second: (Option<&str>, Option<&str>)) -> WasmPool {
    let token = |symbol: Option<&str>| JunoToken {
        name: None,
        symbol: symbol.map(|s| s.to_string()),
        total_supply: None,
        address: None,
        decimals: Some(6),
    };
    let denom = |cw20: Option<&str>| JunoDenom {
        native: if cw20.is_none() { Some("native".to_string()) } else { None },
        cw20: cw20.map(|c| c.to_string()),
    };
    WasmPool {
        pool_address: address.map(|a| a.to_string()),
        lp_token_address: "juno1lp".to_string(),
        lp_token_supply: "10".to_string(),
        token1: Some(token(first.1)),
        token1_denom: denom(first.0),
        token1_reserve: "1000".to_string(),
        token2: Some(token(second.1)),
        token2_denom: denom(second.0),
        token2_reserve: "2000".to_string(),
    }
}

fn link(from: usize, to: usize, pool: &str) -> TokenLink {
    TokenLink { from, to, pool: pool.to_string() }
}

fn pools() -> (Vec<OsmosisPool>, Vec<WasmPool>) {
    (
        vec![
            osmo("1", vec![asset("uosmo", "5", Some("uosmo")), asset("ibc/A", "7", Some("uatom"))]),
            osmo(
                "2",
                vec![
                    asset("ibc/A", "1", Some("uatom")),
                    asset("ibc/J", "2", Some("ujuno")),
                    asset("uion", "3", Some("uion")),
                ],
            ),
        ],
        vec![
            juno(Some("juno1a"), (None, Some("ujuno")), (None, Some("uatom"))),
            juno(Some("juno1b"), (None, Some("ujuno")), (Some("juno1token"), Some("RAW"))),
        ],
    )
}

#[test]
fn labels_follow_the_pools() {
    let (osmo_pools, juno_pools) = pools();
    let found = collect_links(&osmo_pools, &juno_pools).unwrap();
    assert_eq!(
        found.labels,
        vec!["uosmo", "uatom", "uatom", "ujuno", "uion", "ujuno", "uatom", "ujuno", "cw20:juno1token"]
    );
}

#[test]
fn links_join_each_asset_with_those_after_it() {
    let (osmo_pools, juno_pools) = pools();
    let found = collect_links(&osmo_pools, &juno_pools).unwrap();
    assert_eq!(
        found.links,
        vec![
            link(0, 1, "1"),
            link(2, 3, "2"),
            link(2, 4, "2"),
            link(3, 4, "2"),
            link(5, 6, "juno1a"),
            link(7, 8, "juno1b"),
        ]
    );
}

#[test]
fn repeated_asset_links_from_its_first_occurrence() {
    let twice = vec![osmo(
        "9",
        vec![asset("a", "1", Some("a")), asset("b", "2", Some("b")), asset("a", "1", Some("a"))],
    )];
    let found = collect_links(&twice, &vec![]).unwrap();
    assert_eq!(
        found.links,
        vec![link(0, 1, "9"), link(0, 2, "9"), link(1, 2, "9"), link(2, 1, "9"), link(2, 2, "9")]
    );
}

#[test]
fn graph_is_written_as_petgraph_writes_it() {
    let (osmo_pools, juno_pools) = pools();
    let mut expected = Graph::<String, String, Undirected>::new_undirected();
    for name in ["uosmo", "uatom", "ujuno", "uion", "cw20:juno1token"] {
        expected.add_node(name.to_string());
    }
    for (a, b, label) in
        [(0, 1, "1"), (1, 2, "2"), (1, 3, "2"), (2, 3, "2"), (2, 1, "juno1a"), (2, 4, "juno1b")]
    {
        expected.add_edge(NodeIndex::new(a), NodeIndex::new(b), label.to_string());
    }
    let text = token_graph_dot(&osmo_pools, &juno_pools).unwrap();
    assert_eq!(text, Dot::with_config(&expected, &[]).to_string());
    assert!(text.starts_with("graph {\n    0 [ label = \"uosmo\" ]\n"));
    assert!(text.contains("    2 -- 4 [ label = \"juno1b\" ]\n"));
}

#[test]
fn graph_holds_each_token_once() {
    let (osmo_pools, juno_pools) = pools();
    let graph = token_graph(&osmo_pools, &juno_pools).unwrap();
    assert_eq!(graph.node_count(), 5);
    assert_eq!(graph.edge_count(), 6);
    let names: Vec<&String> = graph.node_weights().collect();
    assert_eq!(names, vec!["uosmo", "uatom", "ujuno", "uion", "cw20:juno1token"]);
    let ends = graph.edge_endpoints(petgraph::graph::EdgeIndex::new(4)).unwrap();
    assert_eq!((ends.0.index(), ends.1.index()), (2, 1));
    assert_eq!(graph.edge_weight(petgraph::graph::EdgeIndex::new(4)).unwrap(), "juno1a");
}

#[test]
fn graph_of_no_pools_is_empty() {
    let graph = token_graph(&vec![], &vec![]).unwrap();
    assert_eq!(graph.node_count(), 0);
    assert_eq!(graph.edge_count(), 0);
    let empty = Graph::<String, String, Undirected>::new_undirected();
    assert_eq!(token_graph_dot(&vec![], &vec![]).unwrap(), Dot::with_config(&empty, &[]).to_string());
}

#[test]
fn token_without_name_has_no_graph() {
    let unnamed = vec![osmo("1", vec![asset("uosmo", "5", Some("uosmo")), asset("ibc/A", "7", None)])];
    assert_eq!(collect_links(&unnamed, &vec![]), Err(GraphError::UnnamedToken));
    assert!(matches!(token_graph(&unnamed, &vec![]), Err(GraphError::UnnamedToken)));
    let no_symbol = vec![juno(Some("juno1a"), (None, None), (None, Some("uatom")))];
    assert_eq!(collect_links(&vec![], &no_symbol), Err(GraphError::UnnamedToken));
    let mut no_token = juno(Some("juno1a"), (None, Some("ujuno")), (None, Some("uatom")));
    no_token.token2 = None;
    assert_eq!(token_graph_dot(&vec![], &vec![no_token]), Err(GraphError::UnnamedToken));
}

#[test]
fn pool_without_address_has_no_graph() {
    let lost = vec![
        juno(None, (None, Some("ujuno")), (None, Some("uatom"))),
        juno(Some("juno1b"), (None, Some("ujuno")), (None, Some("uusdc"))),
    ];
    assert_eq!(collect_links(&vec![], &lost), Err(GraphError::PoolWithoutAddress));
}

#[test]
fn missing_name_is_reported_before_missing_address() {
    let both = vec![
        juno(None, (None, Some("ujuno")), (None, Some("uatom"))),
        juno(Some("juno1b"), (None, None), (None, Some("uusdc"))),
    ];
    assert_eq!(collect_links(&vec![], &both), Err(GraphError::UnnamedToken));
}

#[test]
fn contract_token_stands_under_its_address() {
    let pool = juno(Some("juno1a"), (Some("juno1x"), None), (Some("juno1y"), Some("ignored")));
    let found = collect_links(&vec![], &vec![pool]).unwrap();
    assert_eq!(found.labels, vec!["cw20:juno1x", "cw20:juno1y"]);
}
