//! The graph of tokens: a node for each token, an edge for each pair of
//! tokens that a pool trades. The graph itself is a `petgraph::Graph`.

use vstd::prelude::*;
use vstd::hash_map::StringHashMap;
use vstd::string::StringExecFns;
use petgraph::graph::Graph;
use petgraph::Undirected;
use crate::pools::juno_pool::symbol_of;
use crate::pools::juno_pool::JunoDenom;
use crate::pools::juno_pool::JunoToken;
use crate::pools::juno_pool::WasmPool;
use crate::pools::osmosis_pool::OsmosisPool;
use crate::pools::osmosis_pool::OsmosisPoolAssets;
use crate::text::lemma_texts_push;
use crate::text::str_eq;
use crate::util::search::first_index;
use crate::util::search::lemma_first_index;
use crate::util::search::lemma_first_index_push;

verus! {

/// `petgraph::graph::Graph`, taken as it is: what it holds is known only
/// through `graph_nodes` and `graph_edges`.
#[verifier::external_type_specification]
#[verifier::external_body]
#[verifier::reject_recursive_types(N)]
#[verifier::reject_recursive_types(E)]
#[verifier::reject_recursive_types(Ty)]
#[verifier::reject_recursive_types(Ix)]
pub struct ExGraph<N, E, Ty, Ix>(Graph<N, E, Ty, Ix>);

/// `petgraph::Undirected`, the marker of a graph without directions.
#[verifier::external_type_specification]
#[verifier::external_body]
pub struct ExUndirected(Undirected);

/// The labels of the nodes of a graph, in the order of their indices.
pub uninterp spec fn graph_nodes(graph: Graph<String, String, Undirected, u32>) -> Seq<Seq<char>>;

/// The edges of a graph, in the order of their indices: the indices of
/// the two nodes that an edge joins, and its label.
pub uninterp spec fn graph_edges(graph: Graph<String, String, Undirected, u32>) -> Seq<
    (int, int, Seq<char>),
>;

/// The text in which `petgraph::dot::Dot` writes, with no configuration, an
/// undirected graph of these nodes and edges.
pub uninterp spec fn dot_of(nodes: Seq<Seq<char>>, edges: Seq<(int, int, Seq<char>)>) -> Seq<
    char,
>;

/// Calls `Graph::new_undirected`. Trusted: the graph has no node and no
/// edge.
#[verifier::external_body]
fn new_graph() -> (graph: Graph<String, String, Undirected, u32>)
    ensures
        graph_nodes(graph) == Seq::<Seq<char>>::empty(),
        graph_edges(graph) == Seq::<(int, int, Seq<char>)>::empty(),
{
    Graph::new_undirected()
}

/// Calls `Graph::add_node`. Trusted: the node is appended under the next
/// index, which is returned, and the edges stay. The call panics on a graph
/// that holds as many nodes as its index type counts; such graphs are left
/// out.
#[verifier::external_body]
fn add_node(graph: &mut Graph<String, String, Undirected, u32>, label: String) -> (index: usize)
    requires
        graph_nodes(*old(graph)).len() < u32::MAX,
    ensures
        graph_nodes(*final(graph)) == graph_nodes(*old(graph)).push(label@),
        graph_edges(*final(graph)) == graph_edges(*old(graph)),
        index == graph_nodes(*old(graph)).len(),
{
    graph.add_node(label).index()
}

/// Calls `Graph::add_edge` with the nodes of the indices `a` and `b`.
/// Trusted: the edge is appended and the nodes stay. The call panics where
/// a node does not exist and on a graph that holds as many edges as its
/// index type counts; both are left out.
#[verifier::external_body]
fn add_edge(graph: &mut Graph<String, String, Undirected, u32>, a: usize, b: usize, label: String)
    requires
        a < graph_nodes(*old(graph)).len(),
        b < graph_nodes(*old(graph)).len(),
        graph_nodes(*old(graph)).len() <= u32::MAX,
        graph_edges(*old(graph)).len() < u32::MAX,
    ensures
        graph_nodes(*final(graph)) == graph_nodes(*old(graph)),
        graph_edges(*final(graph)) == graph_edges(*old(graph)).push((a as int, b as int, label@)),
{
    graph.add_edge(petgraph::graph::NodeIndex::new(a), petgraph::graph::NodeIndex::new(b), label);
}

/// Writes the graph with `petgraph::dot::Dot::with_config` and no
/// configuration. Trusted: the text depends on the nodes and edges alone;
/// it is the one that `dot_of` names.
#[verifier::external_body]
fn dot_text(graph: &Graph<String, String, Undirected, u32>) -> (text: String)
    ensures
        text@ == dot_of(graph_nodes(*graph), graph_edges(*graph)),
{
    format!("{}", petgraph::dot::Dot::with_config(graph, &[]))
}

/// Why there is no graph.
#[derive(Debug, PartialEq, Eq, Clone, Copy)]
pub enum GraphError {
    /// A token has no name to stand under: an asset without base denom, or
    /// a token that is no contract and has no symbol.
    UnnamedToken,
    /// A pool has no address to label its edge with.
    PoolWithoutAddress,
    /// The graph would hold more nodes or more edges than it can count.
    TooLarge,
}

/// A pool's link between two tokens. The tokens are given by their
/// positions in a list of labels; `pool` labels the link.
#[derive(Debug, PartialEq, Eq)]
pub struct TokenLink {
    pub from: usize,
    pub to: usize,
    pub pool: String,
}

/// What a link says: the two positions and the label.
pub type LinkView = (int, int, Seq<char>);

impl View for TokenLink {
    type V = LinkView;

    open spec fn view(&self) -> LinkView {
        (self.from as int, self.to as int, self.pool@)
    }
}

/// The views of a list of links.
pub open spec fn link_views(links: Seq<TokenLink>) -> Seq<LinkView> {
    links.map_values(|link: TokenLink| link@)
}

/// Every link joins two positions below `count`.
pub open spec fn links_within(links: Seq<LinkView>, count: int) -> bool {
    forall|i: int|
        0 <= i < links.len() ==> 0 <= (#[trigger] links[i]).0 < count && 0 <= links[i].1 < count
}

/// Whether a node stands for `label`.
pub open spec fn is_label(node: Seq<char>, label: Seq<char>) -> bool {
    node == label
}

/// The index of the node that stands for `label`.
pub open spec fn node_of(nodes: Seq<Seq<char>>, label: Seq<char>) -> Option<int> {
    first_index(nodes, |node: Seq<char>| is_label(node, label))
}

/// The nodes with one for `label` among them: a new last one where there
/// was none.
pub open spec fn add_label(nodes: Seq<Seq<char>>, label: Seq<char>) -> Seq<Seq<char>> {
    if node_of(nodes, label) is Some {
        nodes
    } else {
        nodes.push(label)
    }
}

/// The labels without repetition, each where it first occurs.
pub open spec fn unique_labels(labels: Seq<Seq<char>>) -> Seq<Seq<char>>
    decreases labels.len(),
{
    if labels.len() == 0 {
        Seq::empty()
    } else {
        add_label(unique_labels(labels.drop_last()), labels.last())
    }
}

/// A link between positions as an edge between the nodes that stand for
/// the labels at these positions.
pub open spec fn node_link(labels: Seq<Seq<char>>, link: LinkView) -> (int, int, Seq<char>) {
    let nodes = unique_labels(labels);
    (node_of(nodes, labels[link.0])->0, node_of(nodes, labels[link.1])->0, link.2)
}

/// The links as edges, in their order.
pub open spec fn node_links(labels: Seq<Seq<char>>, links: Seq<LinkView>) -> Seq<
    (int, int, Seq<char>),
> {
    links.map_values(|link: LinkView| node_link(labels, link))
}

/// Whether the graph of these labels and links can be counted.
pub open spec fn graph_fits(labels: Seq<Seq<char>>, links: Seq<LinkView>) -> bool {
    unique_labels(labels).len() <= u32::MAX && links.len() <= u32::MAX
}

/// Taking one more label adds it to the nodes.
proof fn lemma_unique_labels_step(labels: Seq<Seq<char>>, i: int)
    requires
        0 <= i < labels.len(),
    ensures
        unique_labels(labels.take(i + 1)) == add_label(unique_labels(labels.take(i)), labels[i]),
{
    assert(labels.take(i + 1).drop_last() =~= labels.take(i));
}

/// The nodes of fewer labels stay where they are among the nodes of more
/// labels.
proof fn lemma_unique_labels_grow(labels: Seq<Seq<char>>, i: int, j: int, label: Seq<char>)
    requires
        0 <= i <= j <= labels.len(),
    ensures
        unique_labels(labels.take(i)).len() <= unique_labels(labels.take(j)).len(),
        node_of(unique_labels(labels.take(i)), label) is Some ==> node_of(
            unique_labels(labels.take(j)),
            label,
        ) == node_of(unique_labels(labels.take(i)), label),
    decreases j - i,
{
    if i < j {
        lemma_unique_labels_grow(labels, i, j - 1, label);
        lemma_unique_labels_step(labels, j - 1);
        let before = unique_labels(labels.take(j - 1));
        lemma_first_index_push(before, labels[j - 1], |node: Seq<char>| is_label(node, label));
    }
}

/// The index of a node is below the number of nodes, and the node at the
/// index stands for the label.
proof fn lemma_node_of(nodes: Seq<Seq<char>>, label: Seq<char>)
    ensures
        match node_of(nodes, label) {
            Some(k) => 0 <= k < nodes.len() && nodes[k] == label,
            None => forall|k: int| 0 <= k < nodes.len() ==> #[trigger] nodes[k] != label,
        },
{
    lemma_first_index(nodes, |node: Seq<char>| is_label(node, label));
}

/// Whether a map from labels to indices is the index of `nodes`: it holds
/// the labels of the nodes, each with the index of its node.
pub open spec fn is_index_of(index: Map<Seq<char>, usize>, nodes: Seq<Seq<char>>) -> bool {
    forall|label: Seq<char>|
        (#[trigger] index.contains_key(label) <==> node_of(nodes, label) is Some) && (
        index.contains_key(label) ==> node_of(nodes, label) == Some(index[label] as int))
}

/// Builds the graph of `labels` and `links`: one node for each distinct
/// label, in the order in which the labels first occur, and one edge for
/// each link, in their order.
fn build_graph(labels: &Vec<String>, links: &Vec<TokenLink>) -> (r: Result<
    Graph<String, String, Undirected, u32>,
    GraphError,
>)
    requires
        links_within(link_views(links@), labels@.len() as int),
    ensures
        match r {
            Ok(graph) => {
                &&& graph_fits(labels.deep_view(), link_views(links@))
                &&& graph_nodes(graph) == unique_labels(labels.deep_view())
                &&& graph_edges(graph) == node_links(labels.deep_view(), link_views(links@))
            },
            Err(error) => error == GraphError::TooLarge && !graph_fits(
                labels.deep_view(),
                link_views(links@),
            ),
        },
{
    let ghost texts = labels.deep_view();
    let ghost views = link_views(links@);
    let mut graph = new_graph();
    let mut token_map: StringHashMap<usize> = StringHashMap::new();
    let mut count: usize = 0;
    let mut node_at: Vec<usize> = Vec::new();
    let mut i: usize = 0;
    proof {
        assert forall|label: Seq<char>| node_of(Seq::<Seq<char>>::empty(), label) is None by {
            lemma_node_of(Seq::<Seq<char>>::empty(), label);
        }
    }
    while i < labels.len()
        invariant
            i <= labels.len(),
            texts == labels.deep_view(),
            graph_nodes(graph) == unique_labels(texts.take(i as int)),
            graph_edges(graph) == Seq::<(int, int, Seq<char>)>::empty(),
            is_index_of(token_map@, graph_nodes(graph)),
            count == graph_nodes(graph).len(),
            count <= u32::MAX,
            node_at@.len() == i,
            forall|k: int|
                0 <= k < i ==> node_of(unique_labels(texts.take(i as int)), texts[k]) == Some(
                    (#[trigger] node_at@[k]) as int,
                ),
        decreases labels.len() - i,
    {
        let ghost before = unique_labels(texts.take(i as int));
        let ghost label = texts[i as int];
        proof {
            lemma_unique_labels_step(texts, i as int);
            assert forall|k: int| 0 <= k < i implies node_of(
                unique_labels(texts.take(i + 1)),
                texts[k],
            ) == Some((#[trigger] node_at@[k]) as int) by {
                lemma_unique_labels_grow(texts, i as int, i + 1, texts[k]);
            }
            assert(label == labels@[i as int]@);
            assert(token_map@.contains_key(label) <==> node_of(before, label) is Some);
        }
        match token_map.get(labels[i].as_str()) {
            Some(k) => {
                node_at.push(*k);
            },
            None => {
                if count >= 0xffff_ffff {
                    proof {
                        lemma_unique_labels_grow(texts, i + 1, texts.len() as int, texts[0]);
                        assert(texts.take(texts.len() as int) =~= texts);
                    }
                    return Err(GraphError::TooLarge);
                }
                let k = add_node(&mut graph, labels[i].clone());
                token_map.insert(labels[i].clone(), k);
                count = count + 1;
                node_at.push(k);
                proof {
                    assert forall|other: Seq<char>|
                        (#[trigger] token_map@.contains_key(other) <==> node_of(
                            before.push(label),
                            other,
                        ) is Some) && (token_map@.contains_key(other) ==> node_of(
                            before.push(label),
                            other,
                        ) == Some(token_map@[other] as int)) by {
                        lemma_first_index_push(
                            before,
                            label,
                            |node: Seq<char>| is_label(node, other),
                        );
                    }
                    assert(token_map@.contains_key(label));
                }
            },
        }
        i += 1;
    }
    assert(texts.take(texts.len() as int) =~= texts);
    let ghost all_nodes = unique_labels(texts);
    let mut e: usize = 0;
    while e < links.len()
        invariant
            e <= links.len(),
            texts == labels.deep_view(),
            views == link_views(links@),
            all_nodes == unique_labels(texts),
            links_within(views, labels@.len() as int),
            graph_nodes(graph) == all_nodes,
            all_nodes.len() <= u32::MAX,
            node_at@.len() == labels@.len(),
            forall|k: int|
                0 <= k < labels@.len() ==> node_of(all_nodes, texts[k]) == Some(
                    (#[trigger] node_at@[k]) as int,
                ),
            graph_edges(graph) == node_links(texts, views).take(e as int),
            e <= u32::MAX,
        decreases links.len() - e,
    {
        if e >= 0xffff_ffff {
            return Err(GraphError::TooLarge);
        }
        let link = &links[e];
        proof {
            assert(views[e as int] == links@[e as int]@);
            lemma_node_of(all_nodes, texts[link.from as int]);
            lemma_node_of(all_nodes, texts[link.to as int]);
        }
        add_edge(&mut graph, node_at[link.from], node_at[link.to], link.pool.clone());
        e += 1;
    }
    Ok(graph)
}

/// The labels to draw and the links between them.
#[derive(Debug, PartialEq, Eq)]
pub struct TokenLinks {
    /// The label of every token of every pool, pool after pool.
    pub labels: Vec<String>,
    /// The links of every pool, between positions in `labels`.
    pub links: Vec<TokenLink>,
}

/// The name under which an asset of a weighted pool stands in the graph:
/// its base denom.
pub open spec fn asset_label(asset: OsmosisPoolAssets) -> Seq<char> {
    asset.native_denom()->0
}

/// The name under which a token of a swap pool stands in the graph: the
/// address of its contract after `cw20:`, or else its symbol.
pub open spec fn token_label(denom: JunoDenom, token: Option<JunoToken>) -> Option<Seq<char>> {
    match denom.cw20 {
        Some(address) => Some("cw20:"@ + address@),
        None => symbol_of(token),
    }
}

/// Every asset of the pool has a name.
pub open spec fn osmo_named(pool: OsmosisPool) -> bool {
    forall|k: int|
        0 <= k < pool.pool_assets@.len() ==> (#[trigger] pool.pool_assets@[k]).native_denom() is Some
}

/// Both tokens of the pool have a name.
pub open spec fn juno_named(pool: WasmPool) -> bool {
    token_label(pool.token1_denom, pool.token1) is Some && token_label(
        pool.token2_denom,
        pool.token2,
    ) is Some
}

/// Every token of every pool has a name.
pub open spec fn all_named(osmo_pools: Seq<OsmosisPool>, juno_pools: Seq<WasmPool>) -> bool {
    &&& forall|p: int| 0 <= p < osmo_pools.len() ==> osmo_named(#[trigger] osmo_pools[p])
    &&& forall|q: int| 0 <= q < juno_pools.len() ==> juno_named(#[trigger] juno_pools[q])
}

/// Every swap pool has an address.
pub open spec fn all_addressed(juno_pools: Seq<WasmPool>) -> bool {
    forall|q: int| 0 <= q < juno_pools.len() ==> (#[trigger] juno_pools[q]).pool_address is Some
}

/// The labels of the assets of a weighted pool, in their order.
pub open spec fn osmo_pool_labels(pool: OsmosisPool) -> Seq<Seq<char>> {
    pool.pool_assets@.map_values(|asset: OsmosisPoolAssets| asset_label(asset))
}

/// The labels of the two tokens of a swap pool.
pub open spec fn juno_pool_labels(pool: WasmPool) -> Seq<Seq<char>> {
    seq![
        token_label(pool.token1_denom, pool.token1)->0,
        token_label(pool.token2_denom, pool.token2)->0,
    ]
}

/// The labels of all weighted pools, pool after pool.
pub open spec fn osmo_labels(pools: Seq<OsmosisPool>) -> Seq<Seq<char>>
    decreases pools.len(),
{
    if pools.len() == 0 {
        Seq::empty()
    } else {
        osmo_labels(pools.drop_last()) + osmo_pool_labels(pools.last())
    }
}

/// The labels of all swap pools, pool after pool.
pub open spec fn juno_labels(pools: Seq<WasmPool>) -> Seq<Seq<char>>
    decreases pools.len(),
{
    if pools.len() == 0 {
        Seq::empty()
    } else {
        juno_labels(pools.drop_last()) + juno_pool_labels(pools.last())
    }
}

/// The labels of all pools: those of the weighted pools first.
pub open spec fn all_labels(osmo_pools: Seq<OsmosisPool>, juno_pools: Seq<WasmPool>) -> Seq<
    Seq<char>,
> {
    osmo_labels(osmo_pools) + juno_labels(juno_pools)
}

/// Whether two assets hold the same amount of the same denom and resolve to
/// the same base denom.
pub open spec fn same_asset(a: OsmosisPoolAssets, b: OsmosisPoolAssets) -> bool {
    &&& a.token.amount@ == b.token.amount@
    &&& a.token.denom@ == b.token.denom@
    &&& a.native_denom() == b.native_denom()
}

/// The position of the first asset that is the same as the asset at `k`.
pub open spec fn first_same(assets: Seq<OsmosisPoolAssets>, k: int) -> int {
    match first_index(assets, |other: OsmosisPoolAssets| same_asset(other, assets[k])) {
        Some(j) => j,
        None => k,
    }
}

/// One link of a weighted pool whose labels begin at `offset`: from the
/// asset at `k` to the asset `m` places after the first that is the same
/// as it.
pub open spec fn link_at(pool: OsmosisPool, offset: int, k: int, m: int) -> LinkView {
    (offset + k, offset + first_same(pool.pool_assets@, k) + 1 + m, pool.id@)
}

/// The first `count` links from the asset at `k`.
pub open spec fn asset_links(pool: OsmosisPool, offset: int, k: int, count: int) -> Seq<LinkView> {
    Seq::new(count as nat, |m: int| link_at(pool, offset, k, m))
}

/// The number of links from the asset at `k`: one to every asset after the
/// first that is the same as it.
pub open spec fn asset_link_count(pool: OsmosisPool, k: int) -> int {
    pool.pool_assets@.len() - first_same(pool.pool_assets@, k) - 1
}

/// The links from the first `upto` assets of a weighted pool.
pub open spec fn pool_links(pool: OsmosisPool, offset: int, upto: int) -> Seq<LinkView>
    decreases upto,
{
    if upto <= 0 {
        Seq::empty()
    } else {
        pool_links(pool, offset, upto - 1) + asset_links(
            pool,
            offset,
            upto - 1,
            asset_link_count(pool, upto - 1),
        )
    }
}

/// The links of all weighted pools, pool after pool.
pub open spec fn osmo_links(pools: Seq<OsmosisPool>) -> Seq<LinkView>
    decreases pools.len(),
{
    if pools.len() == 0 {
        Seq::empty()
    } else {
        osmo_links(pools.drop_last()) + pool_links(
            pools.last(),
            osmo_labels(pools.drop_last()).len() as int,
            pools.last().pool_assets@.len() as int,
        )
    }
}

/// The links of all swap pools, whose labels begin at `base`: one for each
/// pool, between its two tokens, under the address of the pool.
pub open spec fn juno_links(pools: Seq<WasmPool>, base: int) -> Seq<LinkView>
    decreases pools.len(),
{
    if pools.len() == 0 {
        Seq::empty()
    } else {
        juno_links(pools.drop_last(), base).push(
            (
                base + 2 * (pools.len() - 1),
                base + 2 * (pools.len() - 1) + 1,
                pools.last().pool_address->0@,
            ),
        )
    }
}

/// The links of all pools: those of the weighted pools first.
pub open spec fn all_links(osmo_pools: Seq<OsmosisPool>, juno_pools: Seq<WasmPool>) -> Seq<
    LinkView,
> {
    osmo_links(osmo_pools) + juno_links(juno_pools, osmo_labels(osmo_pools).len() as int)
}

/// Swap pools have two labels each.
proof fn lemma_juno_labels_len(pools: Seq<WasmPool>)
    ensures
        juno_labels(pools).len() == 2 * pools.len(),
    decreases pools.len(),
{
    if pools.len() > 0 {
        lemma_juno_labels_len(pools.drop_last());
    }
}

/// Pushing a link onto a list pushes its view onto the views.
proof fn lemma_link_views_push(links: Seq<TokenLink>, link: TokenLink)
    ensures
        link_views(links.push(link)) == link_views(links).push(link@),
{
}

/// Whether two assets are the same.
fn assets_same(a: &OsmosisPoolAssets, b: &OsmosisPoolAssets) -> (same: bool)
    ensures
        same == same_asset(*a, *b),
{
    if !str_eq(a.token.amount.as_str(), b.token.amount.as_str()) {
        return false;
    }
    if !str_eq(a.token.denom.as_str(), b.token.denom.as_str()) {
        return false;
    }
    match (&a.token.native_name, &b.token.native_name) {
        (Some(x), Some(y)) => str_eq(x.as_str(), y.as_str()),
        (None, None) => true,
        _ => false,
    }
}

/// The position of the first asset that is the same as the asset at `k`.
fn first_same_position(assets: &Vec<OsmosisPoolAssets>, k: usize) -> (j: usize)
    requires
        k < assets@.len(),
    ensures
        j == first_same(assets@, k as int),
        j <= k,
{
    let mut j: usize = 0;
    while j < k && !assets_same(&assets[j], &assets[k])
        invariant
            j <= k < assets@.len(),
            forall|x: int| 0 <= x < j ==> !same_asset(#[trigger] assets@[x], assets@[k as int]),
        decreases k - j,
    {
        j += 1;
    }
    proof {
        lemma_first_index(assets@, |other: OsmosisPoolAssets| same_asset(other, assets@[k as int]));
    }
    j
}

/// The name under which a token of a swap pool stands in the graph.
fn label_of_token(denom: &JunoDenom, token: &Option<JunoToken>) -> (label: Option<String>)
    ensures
        label.deep_view() == token_label(*denom, *token),
{
    match &denom.cw20 {
        Some(address) => {
            let mut label = String::from_str("cw20:");
            label.append(address.as_str());
            Some(label)
        },
        None => match token {
            Some(known) => match &known.symbol {
                Some(symbol) => Some(symbol.clone()),
                None => None,
            },
            None => None,
        },
    }
}

/// Appends the labels and the links of one weighted pool.
fn collect_osmo_pool(pool: &OsmosisPool, labels: &mut Vec<String>, links: &mut Vec<TokenLink>) -> (named:
    bool)
    ensures
        named == osmo_named(*pool),
        named ==> final(labels).deep_view() == old(labels).deep_view() + osmo_pool_labels(*pool),
        named ==> link_views(final(links)@) == link_views(old(links)@) + pool_links(
            *pool,
            old(labels)@.len() as int,
            pool.pool_assets@.len() as int,
        ),
        named ==> links_within(
            pool_links(*pool, old(labels)@.len() as int, pool.pool_assets@.len() as int),
            final(labels)@.len() as int,
        ),
{
    let ghost assets = pool.pool_assets@;
    let ghost labels_before = labels.deep_view();
    let ghost links_before = link_views(links@);
    let offset: usize = labels.len();
    let n: usize = pool.pool_assets.len();
    let mut k: usize = 0;
    while k < n
        invariant
            k <= n,
            n == assets.len(),
            assets == pool.pool_assets@,
            offset == labels_before.len(),
            forall|x: int| 0 <= x < k ==> (#[trigger] assets[x]).native_denom() is Some,
            labels.deep_view() == labels_before + osmo_pool_labels(*pool).take(k as int),
            link_views(links@) == links_before,
        decreases n - k,
    {
        match &pool.pool_assets[k].token.native_name {
            Some(name) => {
                let ghost before = *labels;
                labels.push(name.clone());
                proof {
                    lemma_texts_push(before, *labels, *name);
                }
            },
            None => {
                return false;
            },
        }
        k += 1;
    }
    assert(labels@.len() == labels.len());
    let mut k: usize = 0;
    proof {
        reveal_with_fuel(pool_links, 1);
    }
    while k < n
        invariant
            k <= n,
            n == assets.len(),
            assets == pool.pool_assets@,
            offset + n == labels@.len(),
            offset + n <= usize::MAX,
            link_views(links@) == links_before + pool_links(*pool, offset as int, k as int),
            links_within(pool_links(*pool, offset as int, k as int), offset + n),
        decreases n - k,
    {
        let j: usize = first_same_position(&pool.pool_assets, k);
        let ghost done = link_views(links@);
        let mut m: usize = j + 1;
        while m < n
            invariant
                j + 1 <= m <= n,
                k < n,
                n == assets.len(),
                assets == pool.pool_assets@,
                offset + n == labels@.len(),
                offset + n <= usize::MAX,
                j == first_same(assets, k as int),
                link_views(links@) == done + asset_links(
                    *pool,
                    offset as int,
                    k as int,
                    m - j - 1,
                ),
            decreases n - m,
        {
            let ghost before = links@;
            let link = TokenLink { from: offset + k, to: offset + m, pool: pool.id.clone() };
            links.push(link);
            proof {
                lemma_link_views_push(before, link);
            }
            m += 1;
        }
        proof {
            let from_k = asset_links(
                *pool,
                offset as int,
                k as int,
                asset_link_count(*pool, k as int),
            );
            assert(links_within(from_k, offset + n));
            lemma_links_within_add(
                pool_links(*pool, offset as int, k as int),
                from_k,
                offset + n,
                offset + n,
            );
        }
        k += 1;
    }
    true
}

/// Links within a count stay within a larger one, and so do two lists of
/// such links put together.
proof fn lemma_links_within_add(first: Seq<LinkView>, second: Seq<LinkView>, small: int, large: int)
    requires
        links_within(first, small),
        links_within(second, large),
        small <= large,
    ensures
        links_within(first + second, large),
{
    let both = first + second;
    assert forall|i: int| 0 <= i < both.len() implies 0 <= (#[trigger] both[i]).0 < large && 0
        <= both[i].1 < large by {
        if i < first.len() {
            assert(both[i] == first[i]);
        } else {
            assert(both[i] == second[i - first.len()]);
        }
    }
}

/// The first pools are addressed exactly where the pools before the last
/// of them are, and the last is.
proof fn lemma_all_addressed_step(pools: Seq<WasmPool>, q: int)
    requires
        0 <= q < pools.len(),
    ensures
        all_addressed(pools.take(q + 1)) == (all_addressed(pools.take(q))
            && pools[q].pool_address is Some),
{
    let before = pools.take(q);
    let upto = pools.take(q + 1);
    if all_addressed(before) && pools[q].pool_address is Some {
        assert forall|x: int| 0 <= x < upto.len() implies (#[trigger] upto[x]).pool_address is Some by {
            if x < q {
                assert(upto[x] == before[x]);
            }
        }
    } else if !all_addressed(before) {
        let x = choose|x: int| 0 <= x < before.len() && !((#[trigger] before[x]).pool_address is Some);
        assert(upto[x] == before[x]);
    } else {
        assert(upto[q] == pools[q]);
    }
}

/// Lists the labels of all tokens of all pools, pool after pool, and the
/// links of all pools between them. A weighted pool links each of its
/// assets to every asset that follows the first one like it; a swap pool
/// links its two tokens. There is no list where a token has no name or,
/// failing that, where a swap pool has no address.
pub fn collect_links(osmo_pools: &Vec<OsmosisPool>, juno_pools: &Vec<WasmPool>) -> (r: Result<
    TokenLinks,
    GraphError,
>)
    ensures
        match r {
            Ok(found) => {
                &&& all_named(osmo_pools@, juno_pools@)
                &&& all_addressed(juno_pools@)
                &&& found.labels.deep_view() == all_labels(osmo_pools@, juno_pools@)
                &&& link_views(found.links@) == all_links(osmo_pools@, juno_pools@)
                &&& links_within(link_views(found.links@), found.labels@.len() as int)
            },
            Err(error) => if !all_named(osmo_pools@, juno_pools@) {
                error == GraphError::UnnamedToken
            } else {
                error == GraphError::PoolWithoutAddress && !all_addressed(juno_pools@)
            },
        },
{
    let mut labels: Vec<String> = Vec::new();
    let mut links: Vec<TokenLink> = Vec::new();
    let mut p: usize = 0;
    while p < osmo_pools.len()
        invariant
            p <= osmo_pools.len(),
            forall|x: int| 0 <= x < p ==> osmo_named(#[trigger] osmo_pools@[x]),
            labels.deep_view() == osmo_labels(osmo_pools@.take(p as int)),
            link_views(links@) == osmo_links(osmo_pools@.take(p as int)),
            links_within(link_views(links@), labels@.len() as int),
        decreases osmo_pools.len() - p,
    {
        let ghost old_views = link_views(links@);
        let ghost old_len = labels@.len();
        if !collect_osmo_pool(&osmo_pools[p], &mut labels, &mut links) {
            return Err(GraphError::UnnamedToken);
        }
        proof {
            let upto = osmo_pools@.take(p + 1);
            assert(upto.drop_last() =~= osmo_pools@.take(p as int));
            assert(labels@.len() == labels.deep_view().len());
            lemma_links_within_add(
                old_views,
                pool_links(
                    osmo_pools@[p as int],
                    old_len as int,
                    osmo_pools@[p as int].pool_assets@.len() as int,
                ),
                old_len as int,
                labels@.len() as int,
            );
        }
        p += 1;
    }
    assert(osmo_pools@.take(osmo_pools.len() as int) =~= osmo_pools@);
    let ghost base = labels@.len() as int;
    let ghost base_labels = labels.deep_view();
    let ghost base_links = link_views(links@);
    let mut addressed = true;
    let mut q: usize = 0;
    while q < juno_pools.len()
        invariant
            q <= juno_pools.len(),
            base == osmo_labels(osmo_pools@).len(),
            base_labels == osmo_labels(osmo_pools@),
            base_links == osmo_links(osmo_pools@),
            forall|x: int| 0 <= x < q ==> juno_named(#[trigger] juno_pools@[x]),
            addressed == all_addressed(juno_pools@.take(q as int)),
            labels.deep_view() == base_labels + juno_labels(juno_pools@.take(q as int)),
            addressed ==> link_views(links@) == base_links + juno_links(
                juno_pools@.take(q as int),
                base,
            ),
            links_within(link_views(links@), labels@.len() as int),
        decreases juno_pools.len() - q,
    {
        let pool = &juno_pools[q];
        let ghost upto = juno_pools@.take(q + 1);
        let ghost old_views = link_views(links@);
        proof {
            assert(upto.drop_last() =~= juno_pools@.take(q as int));
            lemma_juno_labels_len(juno_pools@.take(q as int));
        }
        let first = match label_of_token(&pool.token1_denom, &pool.token1) {
            Some(label) => label,
            None => {
                return Err(GraphError::UnnamedToken);
            },
        };
        let second = match label_of_token(&pool.token2_denom, &pool.token2) {
            Some(label) => label,
            None => {
                return Err(GraphError::UnnamedToken);
            },
        };
        let offset: usize = labels.len();
        let ghost before = labels;
        labels.push(first);
        let ghost between = labels;
        labels.push(second);
        proof {
            lemma_texts_push(before, between, first);
            lemma_texts_push(between, labels, second);
            assert(labels@.len() == labels.len());
        }
        proof {
            lemma_all_addressed_step(juno_pools@, q as int);
        }
        match &pool.pool_address {
            Some(address) => {
                if addressed {
                    let ghost links_before = links@;
                    let link = TokenLink { from: offset, to: offset + 1, pool: address.clone() };
                    links.push(link);
                    proof {
                        lemma_link_views_push(links_before, link);
                        lemma_links_within_add(
                            old_views,
                            seq![link@],
                            offset as int,
                            labels@.len() as int,
                        );
                    }
                }
            },
            None => {
                addressed = false;
            },
        }
        q += 1;
    }
    assert(juno_pools@.take(juno_pools.len() as int) =~= juno_pools@);
    if !addressed {
        return Err(GraphError::PoolWithoutAddress);
    }
    Ok(TokenLinks { labels, links })
}

/// Builds the graph of the tokens of all pools: a node for each token name,
/// in the order in which the names first occur, and an edge for each link
/// of a pool, in the order of `collect_links`.
pub fn token_graph(osmo_pools: &Vec<OsmosisPool>, juno_pools: &Vec<WasmPool>) -> (r: Result<
    Graph<String, String, Undirected, u32>,
    GraphError,
>)
    ensures
        match r {
            Ok(graph) => {
                &&& all_named(osmo_pools@, juno_pools@)
                &&& all_addressed(juno_pools@)
                &&& graph_fits(all_labels(osmo_pools@, juno_pools@), all_links(osmo_pools@, juno_pools@))
                &&& graph_nodes(graph) == unique_labels(all_labels(osmo_pools@, juno_pools@))
                &&& graph_edges(graph) == node_links(
                    all_labels(osmo_pools@, juno_pools@),
                    all_links(osmo_pools@, juno_pools@),
                )
            },
            Err(error) => if !all_named(osmo_pools@, juno_pools@) {
                error == GraphError::UnnamedToken
            } else if !all_addressed(juno_pools@) {
                error == GraphError::PoolWithoutAddress
            } else {
                error == GraphError::TooLarge && !graph_fits(
                    all_labels(osmo_pools@, juno_pools@),
                    all_links(osmo_pools@, juno_pools@),
                )
            },
        },
{
    match collect_links(osmo_pools, juno_pools) {
        Ok(found) => build_graph(&found.labels, &found.links),
        Err(error) => Err(error),
    }
}

/// Writes the graph of the tokens of all pools in the dot language.
pub fn token_graph_dot(osmo_pools: &Vec<OsmosisPool>, juno_pools: &Vec<WasmPool>) -> (r: Result<
    String,
    GraphError,
>)
    ensures
        match r {
            Ok(text) => {
                &&& all_named(osmo_pools@, juno_pools@)
                &&& all_addressed(juno_pools@)
                &&& graph_fits(all_labels(osmo_pools@, juno_pools@), all_links(osmo_pools@, juno_pools@))
                &&& text@ == dot_of(
                    unique_labels(all_labels(osmo_pools@, juno_pools@)),
                    node_links(
                        all_labels(osmo_pools@, juno_pools@),
                        all_links(osmo_pools@, juno_pools@),
                    ),
                )
            },
            Err(error) => if !all_named(osmo_pools@, juno_pools@) {
                error == GraphError::UnnamedToken
            } else if !all_addressed(juno_pools@) {
                error == GraphError::PoolWithoutAddress
            } else {
                error == GraphError::TooLarge && !graph_fits(
                    all_labels(osmo_pools@, juno_pools@),
                    all_links(osmo_pools@, juno_pools@),
                )
            },
        },
{
    match token_graph(osmo_pools, juno_pools) {
        Ok(graph) => Ok(dot_text(&graph)),
        Err(error) => Err(error),
    }
}

} // verus!
