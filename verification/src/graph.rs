//! The graph container: nodes, directed edges between node ids, and the
//! layers that layered construction adds.

use vstd::prelude::*;
use vstd::string::StringExecFns;

use petgraph::stable_graph::StableGraph;

use crate::edge::{Edge, GraphEdgeKind};
use crate::layout_engine::rank::{
    acyclic, edges_within, is_layering, lemma_acyclic_ranks, lemma_settled_iff_acyclic, occurrences,
    settle_ranks, settles,
};
use crate::node::Node;
use crate::shape::{default_outline, kind_for_name, shape_kind, shape_outline, GraphNodeShape};
use crate::text::{debug_quoted, debug_string};
use crate::topology::{
    edge_slots, node_slots, occupied, topology_add_edge, topology_add_node,
    topology_edge_endpoints, topology_new, topology_node_weights,
};

verus! {

/// The position of the first node whose id is `id`.
pub open spec fn first_with_id<T>(nodes: Seq<Node<T>>, id: Seq<char>) -> Option<int>
    decreases nodes.len(),
{
    if nodes.len() == 0 {
        None
    } else {
        match first_with_id(nodes.drop_last(), id) {
            Some(i) => Some(i),
            None => if nodes.last().id@ == id {
                Some(nodes.len() - 1)
            } else {
                None
            },
        }
    }
}

/// Whether both endpoint ids of `edge` name nodes of `nodes`.
pub open spec fn resolves<T, U>(nodes: Seq<Node<T>>, edge: Edge<U>) -> bool {
    first_with_id(nodes, edge.from@) is Some && first_with_id(nodes, edge.to@) is Some
}

/// The position of the first edge of `edges` with an endpoint id that names
/// no node of `nodes`.
pub open spec fn first_unresolved<T, U>(nodes: Seq<Node<T>>, edges: Seq<Edge<U>>) -> Option<int>
    decreases edges.len(),
{
    if edges.len() == 0 {
        None
    } else {
        match first_unresolved(nodes, edges.drop_last()) {
            Some(k) => Some(k),
            None => if resolves(nodes, edges.last()) {
                None
            } else {
                Some(edges.len() - 1)
            },
        }
    }
}

/// Whether `error` reports that `edge` references a missing endpoint.
pub open spec fn reports_missing<U>(error: GraphBuildError, edge: Edge<U>) -> bool {
    error matches GraphBuildError::MissingEdgeEndpoint { edge_id, from, to } && edge_id@
        == edge.id@ && from@ == edge.from@ && to@ == edge.to@
}

/// The mathematical content of a graph: its nodes and edges in insertion
/// order, the positions of the nodes each edge was attached to when it was
/// added, and the node positions of each layer added by layered
/// construction.
pub struct GraphView<NodeTool, EdgeTool> {
    pub nodes: Seq<Node<NodeTool>>,
    pub edges: Seq<Edge<EdgeTool>>,
    pub ends: Seq<(usize, usize)>,
    pub layers: Seq<Seq<usize>>,
}

/// A directed graph of nodes with stable string ids and edges between those
/// ids.
pub struct Graph<NodeTool = (), EdgeTool = ()> {
    nodes: Vec<Node<NodeTool>>,
    edges: Vec<Edge<EdgeTool>>,
    state: StableGraph<usize, usize>,
    ends: Ghost<Seq<(usize, usize)>>,
    layers: Vec<Vec<usize>>,
}

/// Errors of graph construction.
#[derive(Clone, Debug, PartialEq, Eq)]
pub enum GraphBuildError {
    /// An edge names a node id that the graph does not hold.
    MissingEdgeEndpoint { edge_id: String, from: String, to: String },
    /// The edges form a cycle, so the nodes have no dependency order.
    CyclicDependencies,
}

/// The message of a graph construction error.
pub open spec fn build_error_message(e: GraphBuildError) -> Seq<char> {
    match e {
        GraphBuildError::MissingEdgeEndpoint { edge_id, from, to } => "edge "@ + debug_quoted(edge_id@)
            + " references missing endpoint(s): from="@ + debug_quoted(from@) + ", to="@ + debug_quoted(
            to@,
        ),
        GraphBuildError::CyclicDependencies => "graph edges form a cycle"@,
    }
}

impl GraphBuildError {
    /// A human-readable description of the error.
    pub fn message(&self) -> (r: String)
        ensures
            r@ == build_error_message(*self),
    {
        match self {
            GraphBuildError::MissingEdgeEndpoint { edge_id, from, to } => {
                let mut r = String::from_str("edge ");
                r.append(debug_string(edge_id.as_str()).as_str());
                r.append(" references missing endpoint(s): from=");
                r.append(debug_string(from.as_str()).as_str());
                r.append(", to=");
                r.append(debug_string(to.as_str()).as_str());
                r
            },
            GraphBuildError::CyclicDependencies => String::from_str("graph edges form a cycle"),
        }
    }
}

/// `serde_json`'s error type.
#[verifier::external_type_specification]
#[verifier::external_body]
pub struct ExJsonError(serde_json::Error);

/// Errors of loading a graph from JSON.
#[derive(Debug)]
pub enum GraphJsonError {
    /// The text is not JSON of the graph's shape.
    Parse(serde_json::Error),
    /// The loaded parts do not form a graph.
    Build(GraphBuildError),
    /// A node names a shape that has no default.
    UnknownShape(String),
}

impl From<serde_json::Error> for GraphJsonError {
    fn from(error: serde_json::Error) -> (r: Self) {
        GraphJsonError::Parse(error)
    }
}

impl vstd::std_specs::convert::FromSpecImpl<serde_json::Error> for GraphJsonError {
    open spec fn obeys_from_spec() -> bool {
        true
    }

    open spec fn from_spec(error: serde_json::Error) -> Self {
        GraphJsonError::Parse(error)
    }
}

/// The text of a JSON error.
///
/// Trusted: calls `serde_json::Error`'s `Display`, whose text is not stated.
#[verifier::external_body]
fn json_error_text(error: &serde_json::Error) -> String {
    error.to_string()
}

impl GraphJsonError {
    /// A human-readable description of the error; a parse error shows the
    /// JSON error's own text.
    pub fn message(&self) -> (r: String)
        ensures
            match self {
                GraphJsonError::Parse(_) => true,
                GraphJsonError::Build(e) => r@ == build_error_message(*e),
                GraphJsonError::UnknownShape(name) => r@ == "unknown graph node shape "@ + debug_quoted(name@),
            },
    {
        match self {
            GraphJsonError::Parse(error) => json_error_text(error),
            GraphJsonError::Build(error) => error.message(),
            GraphJsonError::UnknownShape(name) => {
                let mut r = String::from_str("unknown graph node shape ");
                r.append(debug_string(name.as_str()).as_str());
                r
            },
        }
    }
}

/// The default shape for a shape name given in JSON; an unknown name is an
/// error that carries the name.
pub fn json_shape(name: &str) -> (r: Result<GraphNodeShape, GraphJsonError>)
    ensures
        match kind_for_name(name@) {
            None => r matches Err(GraphJsonError::UnknownShape(s)) && s@ == name@,
            Some(k) => r matches Ok(s) && shape_kind(s) == k && shape_outline(s) == default_outline(k),
        },
{
    match GraphNodeShape::default_for_name(name) {
        Some(shape) => Ok(shape),
        None => Err(GraphJsonError::UnknownShape(name.to_owned())),
    }
}

impl<NodeTool, EdgeTool> View for Graph<NodeTool, EdgeTool> {
    type V = GraphView<NodeTool, EdgeTool>;

    closed spec fn view(&self) -> GraphView<NodeTool, EdgeTool> {
        GraphView {
            nodes: self.nodes@,
            edges: self.edges@,
            ends: self.ends@,
            layers: self.layers@.map_values(|l: Vec<usize>| l@),
        }
    }
}

/// The topology slots that mirror edges attached at `ends`: edge `k` runs
/// between the positions `ends[k]` and has weight `k`.
pub open spec fn mirrored_edges(ends: Seq<(usize, usize)>) -> Seq<Option<(usize, usize, usize)>> {
    Seq::new(ends.len(), |k: int| Some((ends[k].0, ends[k].1, k as usize)))
}

/// The positions that `edges` attach to among `nodes`: the first node with
/// the source id and the first node with the target id.
pub open spec fn attached_ends<T, U>(nodes: Seq<Node<T>>, edges: Seq<Edge<U>>) -> Seq<(usize, usize)> {
    Seq::new(
        edges.len(),
        |k: int|
            (
                first_with_id(nodes, edges[k].from@)->0 as usize,
                first_with_id(nodes, edges[k].to@)->0 as usize,
            ),
    )
}

/// The topology slots that mirror `n` nodes: node `i` has weight `i`.
pub open spec fn mirrored_nodes(n: nat) -> Seq<Option<usize>> {
    Seq::new(n, |i: int| Some(i as usize))
}

/// The ids of the nodes of rank `i`, in node order.
pub open spec fn ids_at_rank<T>(nodes: Seq<Node<T>>, ranks: Seq<usize>, i: int) -> Seq<Seq<char>>
    decreases nodes.len(),
{
    if nodes.len() == 0 {
        Seq::empty()
    } else {
        let rest = ids_at_rank(nodes.drop_last(), ranks, i);
        if ranks[nodes.len() - 1] == i {
            rest.push(nodes.last().id@)
        } else {
            rest
        }
    }
}

/// One more than the largest rank, or 0 when there is none.
pub open spec fn level_count(ranks: Seq<usize>) -> nat
    decreases ranks.len(),
{
    if ranks.len() == 0 {
        0
    } else {
        let rest = level_count(ranks.drop_last());
        if ranks.last() + 1 > rest {
            (ranks.last() + 1) as nat
        } else {
            rest
        }
    }
}

/// Whether `levels` lists, for each rank from 0 up to the largest, the ids of
/// the nodes of that rank in node order.
pub open spec fn levels_by_rank<T>(nodes: Seq<Node<T>>, ranks: Seq<usize>, levels: Seq<Vec<String>>) -> bool {
    &&& levels.len() == level_count(ranks)
    &&& forall|i: int| 0 <= i < levels.len() ==> (#[trigger] levels[i])@.map_values(|s: String| s@) == ids_at_rank(
        nodes,
        ranks,
        i,
    )
}

/// The number of ids that `levels` list in all.
pub open spec fn level_total(levels: Seq<Vec<String>>) -> nat
    decreases levels.len(),
{
    if levels.len() == 0 {
        0
    } else {
        level_total(levels.drop_last()) + levels.last()@.len()
    }
}

/// The number of positions of `s` holding each value below `l`, summed.
spec fn occurrence_sum(s: Seq<usize>, l: nat) -> nat
    decreases l,
{
    if l == 0 {
        0
    } else {
        occurrence_sum(s, (l - 1) as nat) + occurrences(s, l - 1)
    }
}

proof fn lemma_occurrence_sum_step(s: Seq<usize>, l: nat)
    requires
        s.len() > 0,
    ensures
        occurrence_sum(s, l) == occurrence_sum(s.drop_last(), l) + if s.last() < l { 1nat } else { 0nat },
    decreases l,
{
    if l > 0 {
        lemma_occurrence_sum_step(s, (l - 1) as nat);
    }
}

proof fn lemma_occurrence_sum_total(s: Seq<usize>, l: nat)
    requires
        forall|j: int| 0 <= j < s.len() ==> #[trigger] s[j] < l,
    ensures
        occurrence_sum(s, l) == s.len(),
    decreases s.len(),
{
    if s.len() == 0 {
        assert(occurrence_sum(s, l) == 0) by {
            lemma_occurrence_sum_zero(s, l);
        }
    } else {
        let t = s.drop_last();
        assert forall|j: int| 0 <= j < t.len() implies #[trigger] t[j] < l by {
            assert(t[j] == s[j]);
        }
        lemma_occurrence_sum_total(t, l);
        lemma_occurrence_sum_step(s, l);
        assert(s.last() == s[s.len() - 1]);
    }
}

proof fn lemma_occurrence_sum_zero(s: Seq<usize>, l: nat)
    requires
        s.len() == 0,
    ensures
        occurrence_sum(s, l) == 0,
    decreases l,
{
    if l > 0 {
        lemma_occurrence_sum_zero(s, (l - 1) as nat);
    }
}

proof fn lemma_ids_at_rank_len<T>(nodes: Seq<Node<T>>, ranks: Seq<usize>, i: int)
    requires
        nodes.len() <= ranks.len(),
    ensures
        ids_at_rank(nodes, ranks, i).len() == occurrences(ranks.take(nodes.len() as int), i),
    decreases nodes.len(),
{
    if nodes.len() > 0 {
        lemma_ids_at_rank_len(nodes.drop_last(), ranks, i);
        assert(ranks.take(nodes.len() as int).drop_last() =~= ranks.take(nodes.len() - 1));
    }
}

proof fn lemma_ids_at_rank_has<T>(nodes: Seq<Node<T>>, ranks: Seq<usize>, v: int)
    requires
        nodes.len() <= ranks.len(),
        0 <= v < nodes.len(),
    ensures
        ids_at_rank(nodes, ranks, ranks[v] as int).contains(nodes[v].id@),
    decreases nodes.len(),
{
    let i = ranks[v] as int;
    let ids = ids_at_rank(nodes, ranks, i);
    if v == nodes.len() - 1 {
        assert(ids[ids.len() - 1] == nodes[v].id@);
    } else {
        lemma_ids_at_rank_has(nodes.drop_last(), ranks, v);
        let rest = ids_at_rank(nodes.drop_last(), ranks, i);
        let w = choose|w: int| 0 <= w < rest.len() && rest[w] == nodes.drop_last()[v].id@;
        assert(ids[w] == rest[w]);
    }
}

proof fn lemma_below_level_count(ranks: Seq<usize>)
    ensures
        forall|v: int| 0 <= v < ranks.len() ==> #[trigger] ranks[v] < level_count(ranks),
    decreases ranks.len(),
{
    if ranks.len() > 0 {
        lemma_below_level_count(ranks.drop_last());
        assert forall|v: int| 0 <= v < ranks.len() implies #[trigger] ranks[v] < level_count(ranks) by {
            if v < ranks.len() - 1 {
                assert(ranks[v] == ranks.drop_last()[v]);
            }
        }
    }
}

proof fn lemma_level_total_sum(levels: Seq<Vec<String>>, ranks: Seq<usize>)
    requires
        forall|i: int| 0 <= i < levels.len() ==> (#[trigger] levels[i])@.len() == occurrences(ranks, i),
    ensures
        level_total(levels) == occurrence_sum(ranks, levels.len()),
    decreases levels.len(),
{
    if levels.len() > 0 {
        let init = levels.drop_last();
        assert forall|i: int| 0 <= i < init.len() implies (#[trigger] init[i])@.len() == occurrences(ranks, i) by {
            assert(init[i] == levels[i]);
        }
        lemma_level_total_sum(init, ranks);
        assert(levels.last() == levels[levels.len() - 1]);
    }
}

/// Dependency levels hold every node exactly once in all: the levels
/// together list as many ids as the graph has nodes, and each node's id is in
/// the level of its rank, whatever the nodes' render states.
pub proof fn lemma_levels_list_every_node<T>(nodes: Seq<Node<T>>, ranks: Seq<usize>, levels: Seq<Vec<String>>)
    requires
        ranks.len() == nodes.len(),
        levels_by_rank(nodes, ranks, levels),
    ensures
        level_total(levels) == nodes.len(),
        forall|v: int|
            0 <= v < nodes.len() ==> ranks[v] < levels.len() && levels[ranks[v] as int]@.map_values(|s: String| s@).contains(
                (#[trigger] nodes[v]).id@,
            ),
{
    assert(ranks.take(nodes.len() as int) =~= ranks);
    assert forall|i: int| 0 <= i < levels.len() implies (#[trigger] levels[i])@.len() == occurrences(ranks, i) by {
        lemma_ids_at_rank_len(nodes, ranks, i);
        assert(levels[i]@.map_values(|s: String| s@).len() == levels[i]@.len());
    }
    lemma_level_total_sum(levels, ranks);
    lemma_below_level_count(ranks);
    lemma_occurrence_sum_total(ranks, levels.len());
    assert forall|v: int| 0 <= v < nodes.len() implies ranks[v] < levels.len() && levels[ranks[v] as int]@.map_values(
        |s: String| s@,
    ).contains((#[trigger] nodes[v]).id@) by {
        assert(ranks[v] < level_count(ranks));
        lemma_ids_at_rank_has(nodes, ranks, v);
    }
}

/// The layer that layered construction connects a new layer to: the last
/// layer added, or none.
pub open spec fn last_layer(layers: Seq<Seq<usize>>) -> Seq<usize> {
    if layers.len() == 0 {
        Seq::empty()
    } else {
        layers.last()
    }
}

/// The layer a new layer is connected to is the one added most recently:
/// none when no layer was added yet.
pub proof fn lemma_last_layer_is_latest(layers: Seq<Seq<usize>>)
    ensures
        layers.len() == 0 ==> last_layer(layers).len() == 0,
        layers.len() > 0 ==> last_layer(layers) == layers[layers.len() - 1],
{
}

/// The edges that a row of build results holds, in order.
pub open spec fn present_row<E>(row: Seq<Option<Edge<E>>>) -> Seq<Edge<E>>
    decreases row.len(),
{
    if row.len() == 0 {
        Seq::empty()
    } else {
        let rest = present_row(row.drop_last());
        match row.last() {
            Some(e) => rest.push(e),
            None => rest,
        }
    }
}

/// The edges that rows of build results hold, row by row.
pub open spec fn present_edges<E>(rows: Seq<Seq<Option<Edge<E>>>>) -> Seq<Edge<E>>
    decreases rows.len(),
{
    if rows.len() == 0 {
        Seq::empty()
    } else {
        present_edges(rows.drop_last()) + present_row(rows.last())
    }
}

/// Whether `rows` are results that `builder` may give for the pairs of a
/// node of the previous layer `prev` (row `p`) and a node of the new layer of
/// `width` nodes starting at position `base` (column `q`).
pub open spec fn built_by<NodeTool, EdgeTool, F: Fn(&Node<NodeTool>, &Node<NodeTool>) -> Option<Edge<EdgeTool>>>(
    builder: F,
    nodes: Seq<Node<NodeTool>>,
    prev: Seq<usize>,
    base: int,
    width: int,
    rows: Seq<Seq<Option<Edge<EdgeTool>>>>,
) -> bool {
    &&& rows.len() == prev.len()
    &&& forall|p: int| 0 <= p < rows.len() ==> (#[trigger] rows[p]).len() == width
    &&& forall|p: int, q: int|
        0 <= p < rows.len() && 0 <= q < width ==> call_ensures(
            builder,
            (&nodes[prev[p] as int], &nodes[base + q]),
            #[trigger] rows[p][q],
        )
}

/// The positions that a layer of `count` nodes added after `base` nodes takes.
pub open spec fn layer_positions(base: int, count: int) -> Seq<usize> {
    Seq::new(count as nat, |q: int| (base + q) as usize)
}

/// The effect of adding the nodes `added` as a new layer connected by the
/// edges `es`: the nodes are appended; then the edges are added in order
/// until one names a missing node, which is reported; when none does, the
/// new layer is recorded and its positions returned.
pub open spec fn layer_added<NodeTool, EdgeTool>(
    before: GraphView<NodeTool, EdgeTool>,
    added: Seq<Node<NodeTool>>,
    es: Seq<Edge<EdgeTool>>,
    after: GraphView<NodeTool, EdgeTool>,
    r: Result<Vec<usize>, GraphBuildError>,
) -> bool {
    let ns = before.nodes + added;
    let positions = layer_positions(before.nodes.len() as int, added.len() as int);
    &&& after.nodes == ns
    &&& match first_unresolved(ns, es) {
        None => r matches Ok(v) && v@ == positions && after.edges == before.edges + es
            && after.ends == before.ends + attached_ends(ns, es) && after.layers == before.layers.push(
            positions,
        ),
        Some(k) => r matches Err(e) && reports_missing(e, es[k]) && after.edges == before.edges
            + es.take(k) && after.ends == before.ends + attached_ends(ns, es.take(k)) && after.layers
            == before.layers,
    }
}

/// Whether `e` is the edge that `add_layer` builds from `from` to `to`.
pub open spec fn layer_edge<T>(from: Node<T>, to: Node<T>, kind: GraphEdgeKind, e: Edge<()>) -> bool {
    &&& e.id@ == from.id@ + "->"@ + to.id@
    &&& e.from@ == from.id@
    &&& e.to@ == to.id@
    &&& e.kind == kind
    &&& e.active
}

/// Whether `rows` hold, for each pair of a node of the previous layer `prev`
/// (row `p`) and a node of the new layer of `width` nodes starting at
/// position `base` (column `q`), the edge that `add_layer` builds between
/// them.
pub open spec fn layer_connected<T>(
    nodes: Seq<Node<T>>,
    prev: Seq<usize>,
    base: int,
    width: int,
    kind: GraphEdgeKind,
    rows: Seq<Seq<Option<Edge<()>>>>,
) -> bool {
    &&& rows.len() == prev.len()
    &&& forall|p: int| 0 <= p < rows.len() ==> (#[trigger] rows[p]).len() == width
    &&& forall|p: int, q: int|
        0 <= p < rows.len() && 0 <= q < width ==> ((#[trigger] rows[p][q]) matches Some(e)
            && layer_edge(nodes[prev[p] as int], nodes[base + q], kind, e))
}

proof fn lemma_layer_ends_are_nodes<NodeTool, EdgeTool>(before: GraphView<NodeTool, EdgeTool>, added: Seq<Node<NodeTool>>, prev: Seq<usize>, p: int)
    requires
        prev == last_layer(before.layers),
        0 <= p < prev.len(),
        forall|l: int, j: int| 0 <= l < before.layers.len() && 0 <= j < before.layers[l].len() ==> #[trigger] before.layers[l][j] < before.nodes.len(),
    ensures
        prev[p] < before.nodes.len(),
{
    assert(before.layers.len() > 0);
    assert(prev[p] == before.layers[before.layers.len() - 1][p]);
}

proof fn lemma_present_row_len<E>(row: Seq<Option<Edge<E>>>)
    ensures
        present_row(row).len() <= row.len(),
    decreases row.len(),
{
    if row.len() > 0 {
        lemma_present_row_len(row.drop_last());
    }
}

proof fn lemma_present_edges_len<E>(rows: Seq<Seq<Option<Edge<E>>>>, width: int)
    requires
        width >= 0,
        forall|p: int| 0 <= p < rows.len() ==> (#[trigger] rows[p]).len() == width,
    ensures
        present_edges(rows).len() <= rows.len() * width,
    decreases rows.len(),
{
    if rows.len() > 0 {
        lemma_present_edges_len(rows.drop_last(), width);
        lemma_present_row_len(rows.last());
        let n = rows.len() as int;
        assert((n - 1) * width + width == n * width) by (nonlinear_arith);
    }
}

proof fn lemma_present_row_full<E>(row: Seq<Option<Edge<E>>>)
    requires
        forall|q: int| 0 <= q < row.len() ==> (#[trigger] row[q]) is Some,
    ensures
        present_row(row).len() == row.len(),
        forall|q: int| 0 <= q < row.len() ==> #[trigger] present_row(row)[q] == row[q]->0,
    decreases row.len(),
{
    if row.len() > 0 {
        lemma_present_row_full(row.drop_last());
        assert(row.last() == row[row.len() - 1]);
    }
}

/// Adding a layer connects each node of the previous layer to each node of
/// the new layer: the layer's edges are exactly one per pair, in row order,
/// the edge from previous node `p` to new node `q` at position
/// `p * width + q`.
pub proof fn lemma_layer_edges_complete<T>(
    nodes: Seq<Node<T>>,
    prev: Seq<usize>,
    base: int,
    width: int,
    kind: GraphEdgeKind,
    rows: Seq<Seq<Option<Edge<()>>>>,
)
    requires
        width >= 0,
        layer_connected(nodes, prev, base, width, kind, rows),
    ensures
        present_edges(rows).len() == prev.len() * width,
        forall|p: int, q: int|
            0 <= p < prev.len() && 0 <= q < width ==> layer_edge(
                nodes[prev[p] as int],
                nodes[base + q],
                kind,
                #[trigger] present_edges(rows)[p * width + q],
            ),
    decreases rows.len(),
{
    if rows.len() > 0 {
        let n = rows.len() as int;
        let rest = rows.drop_last();
        let last = rows.last();
        assert forall|p: int, q: int| 0 <= p < rest.len() && 0 <= q < width implies ((#[trigger] rest[p][q]) matches Some(e)
            && layer_edge(nodes[prev.drop_last()[p] as int], nodes[base + q], kind, e)) by {
            assert(rest[p] == rows[p]);
            assert(rows[p][q] matches Some(e) && layer_edge(nodes[prev[p] as int], nodes[base + q], kind, e));
        }
        assert forall|p: int| 0 <= p < rest.len() implies (#[trigger] rest[p]).len() == width by {
            assert(rest[p] == rows[p]);
        }
        lemma_layer_edges_complete(nodes, prev.drop_last(), base, width, kind, rest);
        assert forall|q: int| 0 <= q < last.len() implies (#[trigger] last[q]) is Some by {
            assert(last == rows[n - 1]);
            assert(rows[n - 1][q] matches Some(e) && layer_edge(nodes[prev[n - 1] as int], nodes[base + q], kind, e));
        }
        lemma_present_row_full(last);
        let head = present_edges(rest);
        let tail = present_row(last);
        assert(present_edges(rows) == head + tail);
        assert((n - 1) * width + width == n * width) by (nonlinear_arith);
        assert forall|p: int, q: int| 0 <= p < prev.len() && 0 <= q < width implies layer_edge(
            nodes[prev[p] as int],
            nodes[base + q],
            kind,
            #[trigger] present_edges(rows)[p * width + q],
        ) by {
            if p < n - 1 {
                assert(p * width + q < (n - 1) * width) by (nonlinear_arith)
                    requires
                        0 <= p < n - 1,
                        0 <= q < width,
                ;
                assert(0 <= p * width) by (nonlinear_arith)
                    requires
                        0 <= p,
                        0 <= width,
                ;
                assert(present_edges(rows)[p * width + q] == head[p * width + q]);
                assert(prev.drop_last()[p] == prev[p]);
            } else {
                assert(p * width == (n - 1) * width);
                assert(present_edges(rows)[p * width + q] == tail[q]);
                assert(last == rows[p]);
                assert(rows[p][q] matches Some(e) && layer_edge(nodes[prev[p] as int], nodes[base + q], kind, e));
            }
        }
    }
}

proof fn lemma_present_row_resolves<T, E>(nodes: Seq<Node<T>>, row: Seq<Option<Edge<E>>>)
    requires
        forall|q: int| 0 <= q < row.len() && (#[trigger] row[q]) is Some ==> resolves(nodes, row[q]->0),
    ensures
        forall|k: int| 0 <= k < present_row(row).len() ==> resolves(nodes, #[trigger] present_row(row)[k]),
    decreases row.len(),
{
    if row.len() > 0 {
        let rest = row.drop_last();
        assert forall|q: int| 0 <= q < rest.len() && (#[trigger] rest[q]) is Some implies resolves(nodes, rest[q]->0) by {
            assert(rest[q] == row[q]);
        }
        lemma_present_row_resolves(nodes, rest);
        assert(row.last() == row[row.len() - 1]);
        let pr = present_row(row);
        let prr = present_row(rest);
        assert forall|k: int| 0 <= k < pr.len() implies resolves(nodes, #[trigger] pr[k]) by {
            if k < prr.len() {
                assert(pr[k] == prr[k]);
            } else {
                assert(pr[k] == row.last()->0);
            }
        }
    }
}

proof fn lemma_present_edges_resolve<T, E>(nodes: Seq<Node<T>>, rows: Seq<Seq<Option<Edge<E>>>>)
    requires
        forall|p: int, q: int|
            0 <= p < rows.len() && 0 <= q < rows[p].len() && (#[trigger] rows[p][q]) is Some ==> resolves(
                nodes,
                rows[p][q]->0,
            ),
    ensures
        first_unresolved(nodes, present_edges(rows)) is None,
    decreases rows.len(),
{
    if rows.len() > 0 {
        let rest = rows.drop_last();
        assert forall|p: int, q: int|
            0 <= p < rest.len() && 0 <= q < rest[p].len() && (#[trigger] rest[p][q]) is Some implies resolves(
                nodes,
                rest[p][q]->0,
            ) by {
            assert(rest[p] == rows[p]);
        }
        lemma_present_edges_resolve(nodes, rest);
        let last = rows.last();
        assert forall|q: int| 0 <= q < last.len() && (#[trigger] last[q]) is Some implies resolves(nodes, last[q]->0) by {
            assert(last == rows[rows.len() - 1]);
        }
        lemma_present_row_resolves(nodes, last);
        let es = present_edges(rows);
        lemma_first_unresolved_is_first(nodes, present_edges(rest));
        assert forall|k: int| 0 <= k < es.len() implies resolves(nodes, #[trigger] es[k]) by {
            if k < present_edges(rest).len() {
                assert(es[k] == present_edges(rest)[k]);
            } else {
                assert(es[k] == present_row(last)[k - present_edges(rest).len()]);
            }
        }
        lemma_first_unresolved_is_first(nodes, es);
    }
}

pub(crate) proof fn lemma_first_with_id_range<T>(nodes: Seq<Node<T>>, id: Seq<char>)
    ensures
        first_with_id(nodes, id) matches Some(i) ==> 0 <= i < nodes.len(),
{
    lemma_first_with_id(nodes, id);
}

proof fn lemma_first_with_id<T>(nodes: Seq<Node<T>>, id: Seq<char>)
    ensures
        match first_with_id(nodes, id) {
            Some(i) => 0 <= i < nodes.len() && nodes[i].id@ == id && forall|j: int|
                0 <= j < i ==> (#[trigger] nodes[j]).id@ != id,
            None => forall|j: int| 0 <= j < nodes.len() ==> (#[trigger] nodes[j]).id@ != id,
        },
    decreases nodes.len(),
{
    if nodes.len() > 0 {
        lemma_first_with_id(nodes.drop_last(), id);
        assert forall|j: int| 0 <= j < nodes.len() - 1 implies nodes[j] == nodes.drop_last()[j] by {}
    }
}

proof fn lemma_first_with_id_extend<T>(nodes: Seq<Node<T>>, more: Seq<Node<T>>, id: Seq<char>)
    requires
        first_with_id(nodes, id) is Some,
    ensures
        first_with_id(nodes + more, id) == first_with_id(nodes, id),
    decreases more.len(),
{
    if more.len() > 0 {
        lemma_first_with_id_extend(nodes, more.drop_last(), id);
        assert((nodes + more).drop_last() =~= nodes + more.drop_last());
    } else {
        assert(nodes + more =~= nodes);
    }
}

proof fn lemma_first_with_id_found<T>(nodes: Seq<Node<T>>, i: int, id: Seq<char>)
    requires
        0 <= i < nodes.len(),
        nodes[i].id@ == id,
    ensures
        first_with_id(nodes, id) is Some,
{
    lemma_first_with_id(nodes, id);
}

proof fn lemma_first_with_id_prefix<T>(nodes: Seq<Node<T>>, j: int, id: Seq<char>)
    requires
        0 <= j <= nodes.len(),
        first_with_id(nodes.take(j), id) is Some,
    ensures
        first_with_id(nodes, id) == first_with_id(nodes.take(j), id),
{
    lemma_first_with_id_extend(nodes.take(j), nodes.skip(j), id);
    assert(nodes.take(j) + nodes.skip(j) =~= nodes);
}

proof fn lemma_first_unresolved_prefix<T, U>(nodes: Seq<Node<T>>, edges: Seq<Edge<U>>, j: int)
    requires
        0 <= j <= edges.len(),
        first_unresolved(nodes, edges.take(j)) is None,
        forall|k: int| j <= k < edges.len() ==> resolves(nodes, #[trigger] edges[k]),
    ensures
        first_unresolved(nodes, edges) is None,
    decreases edges.len() - j,
{
    if j < edges.len() {
        assert(edges.take(j + 1).drop_last() =~= edges.take(j));
        assert(edges.take(j + 1).last() == edges[j]);
        lemma_first_unresolved_prefix(nodes, edges, j + 1);
    } else {
        assert(edges.take(j) =~= edges);
    }
}

proof fn lemma_first_unresolved_found<T, U>(nodes: Seq<Node<T>>, edges: Seq<Edge<U>>, j: int)
    requires
        0 <= j < edges.len(),
        first_unresolved(nodes, edges.take(j)) is None,
        !resolves(nodes, edges[j]),
    ensures
        first_unresolved(nodes, edges) == Some(j),
    decreases edges.len(),
{
    if j + 1 < edges.len() {
        assert(edges.drop_last().take(j) =~= edges.take(j));
        lemma_first_unresolved_found(nodes, edges.drop_last(), j);
    } else {
        assert(edges.drop_last() =~= edges.take(j));
    }
}

proof fn lemma_first_unresolved_is_first<T, U>(nodes: Seq<Node<T>>, edges: Seq<Edge<U>>)
    ensures
        match first_unresolved(nodes, edges) {
            Some(k) => 0 <= k < edges.len() && !resolves(nodes, edges[k]) && first_unresolved(
                nodes,
                edges.take(k),
            ) is None && forall|j: int| 0 <= j < k ==> resolves(nodes, #[trigger] edges[j]),
            None => forall|j: int| 0 <= j < edges.len() ==> resolves(nodes, #[trigger] edges[j]),
        },
    decreases edges.len(),
{
    if edges.len() > 0 {
        lemma_first_unresolved_is_first(nodes, edges.drop_last());
        assert forall|j: int| 0 <= j < edges.len() - 1 implies edges[j] == edges.drop_last()[j] by {}
        match first_unresolved(nodes, edges.drop_last()) {
            Some(k) => {
                assert(edges.drop_last().take(k) =~= edges.take(k));
            },
            None => {
                assert(edges.drop_last() =~= edges.take(edges.len() - 1));
            },
        }
    }
}

impl<NodeTool, EdgeTool> Graph<NodeTool, EdgeTool> {
    /// The internal consistency of a graph: the topology mirrors the nodes
    /// and the edges' attachments, every attachment and every layer entry is
    /// a node position, and the counts fit petgraph's 32-bit indices.
    pub closed spec fn wf(&self) -> bool {
        &&& self.nodes@.len() <= u32::MAX
        &&& self.edges@.len() <= u32::MAX
        &&& node_slots(self.state) == mirrored_nodes(self.nodes@.len())
        &&& self.ends@.len() == self.edges@.len()
        &&& edge_slots(self.state) == mirrored_edges(self.ends@)
        &&& forall|k: int| 0 <= k < self.ends@.len() ==> (#[trigger] self.ends@[k]).0 < self.nodes@.len()
            && self.ends@[k].1 < self.nodes@.len()
        &&& forall|l: int, j: int|
            0 <= l < self.layers@.len() && 0 <= j < self.layers@[l]@.len() ==> #[trigger] self.layers@[l]@[j]
                < self.nodes@.len()
    }

    /// An empty graph.
    pub fn new() -> (g: Self)
        ensures
            g.wf(),
            g@.nodes == Seq::<Node<NodeTool>>::empty(),
            g@.edges == Seq::<Edge<EdgeTool>>::empty(),
            g@.ends == Seq::<(usize, usize)>::empty(),
            g@.layers == Seq::<Seq<usize>>::empty(),
    {
        let g = Graph {
            nodes: Vec::new(),
            edges: Vec::new(),
            state: topology_new(),
            ends: Ghost(Seq::empty()),
            layers: Vec::new(),
        };
        assert(node_slots(g.state) =~= mirrored_nodes(0));
        assert(edge_slots(g.state) =~= mirrored_edges(g.ends@));
        assert(g@.layers =~= Seq::<Seq<usize>>::empty());
        g
    }

    /// Adds a node and returns its position.
    pub fn add_node(&mut self, node: Node<NodeTool>) -> (r: usize)
        requires
            old(self).wf(),
            old(self)@.nodes.len() < u32::MAX,
        ensures
            final(self).wf(),
            r == old(self)@.nodes.len(),
            final(self)@.nodes == old(self)@.nodes.push(node),
            final(self)@.edges == old(self)@.edges,
            final(self)@.ends == old(self)@.ends,
            final(self)@.layers == old(self)@.layers,
    {
        let idx = self.nodes.len();
        let ghost old_nodes = self.nodes@;
        let placed = topology_add_node(&mut self.state, idx);
        self.nodes.push(node);
        proof {
            assert(node_slots(self.state) =~= mirrored_nodes(self.nodes@.len()));
        }
        placed
    }

    /// The position of the first node whose id is `id`.
    fn node_position(&self, id: &String) -> (r: Option<usize>)
        ensures
            match first_with_id(self@.nodes, id@) {
                Some(i) => r == Some(i as usize),
                None => r is None,
            },
    {
        let n = self.nodes.len();
        let mut i: usize = 0;
        while i < n
            invariant
                n == self.nodes@.len(),
                i <= n,
                first_with_id(self.nodes@.take(i as int), id@) is None,
            decreases n - i,
        {
            assert(self.nodes@.take(i + 1).drop_last() =~= self.nodes@.take(i as int));
            if self.nodes[i].id == *id {
                proof {
                    lemma_first_with_id_prefix(self.nodes@, i + 1, id@);
                }
                return Some(i);
            }
            i = i + 1;
        }
        assert(self.nodes@.take(n as int) =~= self.nodes@);
        None
    }

    /// The position of the first node whose id is `id`.
    pub fn node_index(&self, id: &str) -> (r: Option<usize>)
        ensures
            match first_with_id(self@.nodes, id@) {
                Some(i) => r == Some(i as usize),
                None => r is None,
            },
    {
        let owned = id.to_owned();
        self.node_position(&owned)
    }

    /// Mutable access to the first node whose id is `id`, for render state
    /// such as marking a node active while it runs.
    pub fn node_mut(&mut self, id: &str) -> (r: Option<&mut Node<NodeTool>>)
        requires
            old(self).wf(),
        ensures
            final(self).wf(),
            final(self)@.edges == old(self)@.edges,
            final(self)@.ends == old(self)@.ends,
            final(self)@.layers == old(self)@.layers,
            match first_with_id(old(self)@.nodes, id@) {
                None => r is None && final(self)@.nodes == old(self)@.nodes,
                Some(i) => r matches Some(n) && *n == old(self)@.nodes[i] && final(self)@.nodes == old(
                    self,
                )@.nodes.update(i, *final(n)),
            },
    {
        let owned = id.to_owned();
        proof {
            lemma_first_with_id(self.nodes@, id@);
        }
        match self.node_position(&owned) {
            Some(i) => Some(&mut self.nodes[i]),
            None => None,
        }
    }

    /// The ids of the nodes whose rank in `ranks` is `i`, in node order.
    fn ids_of_rank(&self, ranks: &Vec<usize>, i: usize) -> (level: Vec<String>)
        requires
            ranks@.len() == self@.nodes.len(),
        ensures
            level@.map_values(|s: String| s@) == ids_at_rank(self@.nodes, ranks@, i as int),
    {
        let n = self.nodes.len();
        let mut level: Vec<String> = Vec::new();
        let mut v: usize = 0;
        while v < n
            invariant
                n == ranks@.len(),
                n == self.nodes@.len(),
                v <= n,
                level@.map_values(|s: String| s@) == ids_at_rank(self.nodes@.take(v as int), ranks@, i as int),
            decreases n - v,
        {
            let ghost before = level@;
            assert(self.nodes@.take(v + 1).drop_last() =~= self.nodes@.take(v as int));
            if ranks[v] == i {
                level.push(self.nodes[v].id.clone());
                assert(level@.map_values(|s: String| s@) =~= before.map_values(|s: String| s@).push(self.nodes@[v as int].id@));
            }
            v = v + 1;
        }
        assert(self.nodes@.take(n as int) =~= self.nodes@);
        level
    }

    /// The ranks that processing the nodes in topological order along the
    /// edges' attachments settles, and whether every node was settled.
    fn settled_ranks(&self) -> (r: (Vec<usize>, bool))
        requires
            self.wf(),
        ensures
            settles(self@.nodes.len(), self@.ends, r.0@, r.1),
            r.0@.len() == self@.nodes.len(),
            forall|v: int| 0 <= v < self@.nodes.len() ==> #[trigger] r.0@[v] < self@.nodes.len(),
    {
        let n = self.nodes.len();
        let mut pairs: Vec<(usize, usize)> = Vec::new();
        let mut k: usize = 0;
        while k < self.edges.len()
            invariant
                self.wf(),
                n == self.nodes@.len(),
                k <= self.edges@.len(),
                pairs@ == self.ends@.take(k as int),
            decreases self.edges@.len() - k,
        {
            let ends = self.edge_endpoints(k);
            pairs.push(ends);
            k = k + 1;
            assert(pairs@ =~= self.ends@.take(k as int));
        }
        assert(self.ends@.take(self.ends@.len() as int) =~= self.ends@);
        assert(edges_within(n as nat, pairs@));
        settle_ranks(n, &pairs)
    }

    /// Groups the node ids into execution levels: each level holds the nodes
    /// whose dependencies (the nodes their incoming edges start from) all lie
    /// in earlier levels, as deep as the longest chain of dependencies above
    /// them. Fails when the edges form a cycle.
    pub fn dependency_levels(&self) -> (r: Result<Vec<Vec<String>>, GraphBuildError>)
        requires
            self.wf(),
        ensures
            r is Ok <==> acyclic(self@.nodes.len(), self@.ends),
            r matches Err(e) ==> e == GraphBuildError::CyclicDependencies,
            r matches Ok(levels) ==> exists|ranks: Seq<usize>|
                #![trigger is_layering(self@.nodes.len(), self@.ends, ranks)]
                is_layering(self@.nodes.len(), self@.ends, ranks) && levels_by_rank(self@.nodes, ranks, levels@)
                    && forall|k: int|
                    0 <= k < self@.ends.len() ==> ranks[(#[trigger] self@.ends[k]).0 as int] < ranks[self@.ends[k].1 as int],
            r matches Ok(levels) ==> level_total(levels@) == self@.nodes.len(),
            r matches Ok(levels) ==> forall|v: int|
                0 <= v < self@.nodes.len() ==> exists|l: int|
                    0 <= l < levels@.len() && levels@[l]@.map_values(|s: String| s@).contains(
                        (#[trigger] self@.nodes[v]).id@,
                    ),
    {
        let n = self.nodes.len();
        let (ranks, all_settled) = self.settled_ranks();
        proof {
            lemma_settled_iff_acyclic(n as nat, self.ends@, ranks@, all_settled);
        }
        if !all_settled {
            return Err(GraphBuildError::CyclicDependencies);
        }
        let ghost r = ranks@;
        assert(is_layering(n as nat, self.ends@, r));
        assert(forall|k: int| 0 <= k < self@.ends.len() ==> r[(#[trigger] self@.ends[k]).0 as int] < r[self@.ends[k].1 as int]) by {
            lemma_acyclic_ranks(n as nat, self.ends@, r);
        }
        let count = level_count_of(&ranks);
        let mut levels: Vec<Vec<String>> = Vec::new();
        let mut i: usize = 0;
        while i < count
            invariant
                n == r.len(),
                ranks@ == r,
                n == self.nodes@.len(),
                i <= count,
                levels@.len() == i,
                forall|l: int| 0 <= l < i ==> (#[trigger] levels@[l])@.map_values(|s: String| s@) == ids_at_rank(
                    self.nodes@,
                    r,
                    l,
                ),
            decreases count - i,
        {
            let level = self.ids_of_rank(&ranks, i);
            levels.push(level);
            i = i + 1;
        }
        assert(levels_by_rank(self@.nodes, r, levels@));
        proof {
            lemma_levels_list_every_node(self.nodes@, r, levels@);
            assert forall|v: int| 0 <= v < self@.nodes.len() implies exists|l: int|
                0 <= l < levels@.len() && levels@[l]@.map_values(|s: String| s@).contains(
                    (#[trigger] self@.nodes[v]).id@,
                ) by {
                let l = r[v] as int;
                assert(0 <= l < levels@.len() && levels@[l]@.map_values(|s: String| s@).contains(self@.nodes[v].id@));
            }
        }
        Ok(levels)
    }

    /// Adds `edge` when both of its endpoint ids name nodes of the graph;
    /// returns whether it was added.
    pub fn add_edge(&mut self, edge: Edge<EdgeTool>) -> (r: bool)
        requires
            old(self).wf(),
            old(self)@.edges.len() < u32::MAX,
        ensures
            final(self).wf(),
            r == resolves(old(self)@.nodes, edge),
            final(self)@.nodes == old(self)@.nodes,
            final(self)@.edges == (if r {
                old(self)@.edges.push(edge)
            } else {
                old(self)@.edges
            }),
            final(self)@.ends == (if r {
                old(self)@.ends.push(
                    (
                        first_with_id(old(self)@.nodes, edge.from@)->0 as usize,
                        first_with_id(old(self)@.nodes, edge.to@)->0 as usize,
                    ),
                )
            } else {
                old(self)@.ends
            }),
            final(self)@.layers == old(self)@.layers,
    {
        let from = match self.node_position(&edge.from) {
            Some(i) => i,
            None => {
                return false;
            },
        };
        let to = match self.node_position(&edge.to) {
            Some(i) => i,
            None => {
                return false;
            },
        };
        proof {
            lemma_first_with_id(self.nodes@, edge.from@);
            lemma_first_with_id(self.nodes@, edge.to@);
        }
        let k = self.edges.len();
        let ghost old_edges = self.edges@;
        let placed = topology_add_edge(&mut self.state, from, to, k);
        self.edges.push(edge);
        let ghost old_ends = self.ends@;
        self.ends = Ghost(old_ends.push((from, to)));
        proof {
            assert(edge_slots(self.state) =~= mirrored_edges(self.ends@));
            assert forall|j: int| 0 <= j < self.ends@.len() implies (#[trigger] self.ends@[j]).0 < self.nodes@.len()
                && self.ends@[j].1 < self.nodes@.len() by {
                if j < old_ends.len() {
                    assert(self.ends@[j] == old_ends[j]);
                }
            }
        }
        true
    }

    /// The nodes, in insertion order.
    pub fn nodes(&self) -> (r: Vec<&Node<NodeTool>>)
        requires
            self.wf(),
        ensures
            r@.len() == self@.nodes.len(),
            forall|i: int| 0 <= i < r@.len() ==> *r@[i] == self@.nodes[i],
    {
        let weights = topology_node_weights(&self.state);
        proof {
            lemma_occupied_mirrored(self.nodes@.len());
        }
        let mut r: Vec<&Node<NodeTool>> = Vec::new();
        let mut i: usize = 0;
        while i < weights.len()
            invariant
                weights@ == Seq::new(self.nodes@.len(), |j: int| j as usize),
                i <= weights@.len(),
                r@.len() == i,
                forall|j: int| 0 <= j < i ==> *r@[j] == self.nodes@[j],
            decreases weights@.len() - i,
        {
            let w = weights[i];
            r.push(&self.nodes[w]);
            i = i + 1;
        }
        r
    }

    /// The edges, in insertion order.
    pub fn edges(&self) -> (r: Vec<&Edge<EdgeTool>>)
        ensures
            r@.len() == self@.edges.len(),
            forall|i: int| 0 <= i < r@.len() ==> *r@[i] == self@.edges[i],
    {
        let mut r: Vec<&Edge<EdgeTool>> = Vec::new();
        let mut i: usize = 0;
        while i < self.edges.len()
            invariant
                i <= self.edges@.len(),
                r@.len() == i,
                forall|j: int| 0 <= j < i ==> *r@[j] == self.edges@[j],
            decreases self.edges@.len() - i,
        {
            r.push(&self.edges[i]);
            i = i + 1;
        }
        r
    }

    /// The positions of the nodes of each layer added by layered
    /// construction.
    pub fn layers(&self) -> (r: &Vec<Vec<usize>>)
        ensures
            r@.map_values(|l: Vec<usize>| l@) == self@.layers,
    {
        &self.layers
    }

    /// The positions of the nodes that edge `k` was attached to when it was
    /// added.
    pub fn edge_endpoints(&self, k: usize) -> (r: (usize, usize))
        requires
            self.wf(),
            k < self@.edges.len(),
        ensures
            r == self@.ends[k as int],
    {
        match topology_edge_endpoints(&self.state, k) {
            Some(ends) => ends,
            None => {
                assert(false);
                (0, 0)
            },
        }
    }

    /// Adds `nodes` as a new layer, then connects each node of the previous
    /// layer to each node of the new layer with the edge `edge_builder`
    /// returns for the pair, if any. Fails on the first built edge with an
    /// endpoint id that names no node; the new layer is then not recorded.
    pub fn add_layer_with_edges<F>(&mut self, nodes: Vec<Node<NodeTool>>, edge_builder: F) -> (r: Result<
        Vec<usize>,
        GraphBuildError,
    >) where F: Fn(&Node<NodeTool>, &Node<NodeTool>) -> Option<Edge<EdgeTool>>
        requires
            old(self).wf(),
            old(self)@.nodes.len() + nodes@.len() < u32::MAX,
            old(self)@.edges.len() + last_layer(old(self)@.layers).len() * nodes@.len() < u32::MAX,
            forall|a: &Node<NodeTool>, b: &Node<NodeTool>| #[trigger] call_requires(edge_builder, (a, b)),
        ensures
            final(self).wf(),
            exists|rows: Seq<Seq<Option<Edge<EdgeTool>>>>|
                built_by(
                    edge_builder,
                    final(self)@.nodes,
                    last_layer(old(self)@.layers),
                    old(self)@.nodes.len() as int,
                    nodes@.len() as int,
                    rows,
                ) && layer_added(old(self)@, nodes@, present_edges(rows), final(self)@, r),
    {
        let ghost before = self@;
        let ghost added = nodes@;
        let ghost prev = last_layer(self@.layers);
        let base = self.nodes.len();
        let mut previous_layer: Vec<usize> = Vec::new();
        let nl = self.layers.len();
        if nl > 0 {
            let last = &self.layers[nl - 1];
            let mut j: usize = 0;
            while j < last.len()
                invariant
                    j <= last@.len(),
                    previous_layer@ == last@.take(j as int),
                decreases last@.len() - j,
            {
                previous_layer.push(last[j]);
                j = j + 1;
                assert(previous_layer@ =~= last@.take(j as int));
            }
            assert(last@.take(last@.len() as int) =~= last@);
        }
        assert(previous_layer@ == prev);
        assert(forall|j: int| 0 <= j < prev.len() ==> prev[j] < base) by {
            if nl > 0 {
                assert(prev == self.layers@[nl - 1]@);
            }
        }
        let mut new_layer: Vec<usize> = Vec::new();
        let mut positions: Vec<usize> = Vec::new();
        for node in it: nodes
            invariant
                it.seq() == added,
                added == nodes@,
                before == old(self)@,
                self.wf(),
                base == before.nodes.len(),
                before.nodes.len() + added.len() < u32::MAX,
                self@.nodes == before.nodes + added.take(it.index() as int),
                self@.edges == before.edges,
                self@.ends == before.ends,
                self@.layers == before.layers,
                new_layer@ == layer_positions(base as int, it.index() as int),
                positions@ == layer_positions(base as int, it.index() as int),
        {
            let idx = self.add_node(node);
            new_layer.push(idx);
            positions.push(idx);
            assert(self@.nodes =~= before.nodes + added.take(it.index() + 1));
            assert(new_layer@ =~= layer_positions(base as int, it.index() + 1));
            assert(positions@ =~= layer_positions(base as int, it.index() + 1));
        }
        assert(added.take(added.len() as int) =~= added);
        let ghost ns = self@.nodes;
        let m = new_layer.len();
        let mut edges: Vec<Edge<EdgeTool>> = Vec::new();
        let ghost mut rows: Seq<Seq<Option<Edge<EdgeTool>>>> = Seq::empty();
        let mut p: usize = 0;
        while p < previous_layer.len()
            invariant
                self@.nodes == ns,
                ns.len() == base + m,
                base + m < u32::MAX,
                m == added.len(),
                new_layer@ == layer_positions(base as int, m as int),
                previous_layer@ == prev,
                forall|j: int| 0 <= j < prev.len() ==> prev[j] < base,
                forall|a: &Node<NodeTool>, b: &Node<NodeTool>| #[trigger] call_requires(edge_builder, (a, b)),
                p <= prev.len(),
                built_by(edge_builder, ns, prev.take(p as int), base as int, m as int, rows),
                edges@ == present_edges(rows),
            decreases prev.len() - p,
        {
            let ghost mut row: Seq<Option<Edge<EdgeTool>>> = Seq::empty();
            let ghost edges_before = edges@;
            let mut q: usize = 0;
            while q < m
                invariant
                    self@.nodes == ns,
                    ns.len() == base + m,
                    new_layer@ == layer_positions(base as int, m as int),
                    previous_layer@ == prev,
                    p < prev.len(),
                    prev[p as int] < base,
                    base + m < u32::MAX,
                    forall|a: &Node<NodeTool>, b: &Node<NodeTool>| #[trigger] call_requires(edge_builder, (a, b)),
                    q <= m,
                    row.len() == q,
                    forall|j: int| 0 <= j < q ==> call_ensures(
                        edge_builder,
                        (&ns[prev[p as int] as int], &ns[base + j]),
                        #[trigger] row[j],
                    ),
                    edges@ == edges_before + present_row(row),
                decreases m - q,
            {
                let from = &self.nodes[previous_layer[p]];
                let to = &self.nodes[new_layer[q]];
                assert(*from == ns[prev[p as int] as int]);
                assert(new_layer@[q as int] == layer_positions(base as int, m as int)[q as int]);
                assert(*to == ns[base + q]);
                let built = edge_builder(from, to);
                let ghost old_row = row;
                proof {
                    row = old_row.push(built);
                    assert(row.drop_last() =~= old_row);
                    assert forall|j: int| 0 <= j < q + 1 implies call_ensures(
                        edge_builder,
                        (&ns[prev[p as int] as int], &ns[base + j]),
                        #[trigger] row[j],
                    ) by {
                        if j < q {
                            assert(row[j] == old_row[j]);
                        }
                    }
                }
                match built {
                    Some(e) => {
                        edges.push(e);
                    },
                    None => {},
                }
                q = q + 1;
                assert(edges@ =~= edges_before + present_row(row));
            }
            proof {
                let old_rows = rows;
                rows = rows.push(row);
                assert(rows.drop_last() =~= old_rows);
                assert(prev.take(p + 1).drop_last() =~= prev.take(p as int));
                assert forall|pp: int| 0 <= pp < rows.len() implies (#[trigger] rows[pp]).len() == m by {
                    if pp < old_rows.len() {
                        assert(rows[pp] == old_rows[pp]);
                    }
                }
                assert forall|pp: int, qq: int| 0 <= pp < rows.len() && 0 <= qq < m implies call_ensures(
                    edge_builder,
                    (&ns[prev.take(p + 1)[pp] as int], &ns[base + qq]),
                    #[trigger] rows[pp][qq],
                ) by {
                    if pp < old_rows.len() {
                        assert(rows[pp] == old_rows[pp]);
                        assert(prev.take(p + 1)[pp] == prev.take(p as int)[pp]);
                    }
                }
            }
            p = p + 1;
            assert(edges@ =~= present_edges(rows));
        }
        assert(prev.take(prev.len() as int) =~= prev);
        proof {
            lemma_present_edges_len(rows, m as int);
        }
        let ghost es = edges@;
        let ghost mid = self@;
        for edge in it: edges
            invariant
                it.seq() == es,
                added == nodes@,
                before == old(self)@,
                prev == last_layer(before.layers),
                base == before.nodes.len(),
                m == added.len(),
                new_layer@ == layer_positions(base as int, m as int),
                positions@ == layer_positions(base as int, m as int),
                es == present_edges(rows),
                built_by(edge_builder, ns, prev, base as int, m as int, rows),
                before.edges.len() + es.len() < u32::MAX,
                self.wf(),
                self@.nodes == ns,
                ns == before.nodes + added,
                self@.edges == before.edges + es.take(it.index() as int),
                self@.ends == before.ends + attached_ends(ns, es.take(it.index() as int)),
                self@.layers == before.layers,
                first_unresolved(ns, es.take(it.index() as int)) is None,
        {
            let ghost k = it.index() as int;
            let edge_id = edge.id.clone();
            let from = edge.from.clone();
            let to = edge.to.clone();
            let ghost this = edge;
            assert(this == es[k]);
            if !self.add_edge(edge) {
                proof {
                    lemma_first_unresolved_found(ns, es, k);
                }
                let r = Err(GraphBuildError::MissingEdgeEndpoint { edge_id, from, to });
                assert(built_by(edge_builder, self@.nodes, prev, base as int, m as int, rows));
                assert(layer_added(before, added, present_edges(rows), self@, r));
                return r;
            }
            assert(es.take(k + 1).drop_last() =~= es.take(k));
            assert(self@.edges =~= before.edges + es.take(k + 1));
            assert(self@.ends =~= before.ends + attached_ends(ns, es.take(k + 1)));
        }
        assert(es.take(es.len() as int) =~= es);
        proof {
            lemma_first_unresolved_prefix(ns, es, es.len() as int);
        }
        let ghost old_layers = self.layers@;
        self.layers.push(new_layer);
        proof {
            assert(self@.layers =~= before.layers.push(layer_positions(base as int, m as int)));
            assert forall|l: int, j: int|
                0 <= l < self.layers@.len() && 0 <= j < self.layers@[l]@.len() implies #[trigger] self.layers@[l]@[j]
                    < self.nodes@.len() by {
                if l < self.layers@.len() - 1 {
                    assert(self.layers@[l] == old_layers[l]);
                }
            }
        }
        let r = Ok(positions);
        assert(built_by(edge_builder, self@.nodes, prev, base as int, m as int, rows));
        assert(layer_added(before, added, present_edges(rows), self@, r));
        r
    }

    /// A graph of `nodes` and then `edges`, added in order; fails on the
    /// first edge with an endpoint id that names no node.
    pub fn try_from_parts(nodes: Vec<Node<NodeTool>>, edges: Vec<Edge<EdgeTool>>) -> (r: Result<Self, GraphBuildError>)
        requires
            nodes@.len() < u32::MAX,
            edges@.len() < u32::MAX,
        ensures
            match first_unresolved(nodes@, edges@) {
                None => r matches Ok(g) && g.wf() && g@.nodes == nodes@ && g@.edges == edges@
                    && g@.ends == attached_ends(nodes@, edges@)
                    && g@.layers == Seq::<Seq<usize>>::empty(),
                Some(k) => r matches Err(e) && reports_missing(e, edges@[k]),
            },
    {
        let mut graph = Self::new();
        let ghost all_nodes = nodes@;
        let ghost all_edges = edges@;
        for node in it: nodes
            invariant
                it.seq() == all_nodes,
                graph.wf(),
                graph@.nodes == all_nodes.take(it.index() as int),
                graph@.edges == Seq::<Edge<EdgeTool>>::empty(),
                graph@.ends == Seq::<(usize, usize)>::empty(),
                graph@.layers == Seq::<Seq<usize>>::empty(),
                all_nodes.len() < u32::MAX,
        {
            graph.add_node(node);
            assert(graph@.nodes =~= all_nodes.take(it.index() + 1));
        }
        assert(all_nodes.take(all_nodes.len() as int) =~= all_nodes);
        for edge in it: edges
            invariant
                it.seq() == all_edges,
                all_nodes == nodes@,
                all_edges == edges@,
                all_edges.len() < u32::MAX,
                graph.wf(),
                graph@.nodes == all_nodes,
                graph@.edges == all_edges.take(it.index() as int),
                graph@.ends == attached_ends(all_nodes, all_edges.take(it.index() as int)),
                graph@.layers == Seq::<Seq<usize>>::empty(),
                first_unresolved(all_nodes, all_edges.take(it.index() as int)) is None,
        {
            let ghost k = it.index() as int;
            let edge_id = edge.id.clone();
            let from = edge.from.clone();
            let to = edge.to.clone();
            let ghost this = edge;
            assert(this == all_edges[k]);
            if !graph.add_edge(edge) {
                proof {
                    lemma_first_unresolved_found(all_nodes, all_edges, k);
                }
                return Err(GraphBuildError::MissingEdgeEndpoint { edge_id, from, to });
            }
            assert(all_edges.take(k + 1).drop_last() =~= all_edges.take(k));
            assert(graph@.edges =~= all_edges.take(k + 1));
            assert(graph@.ends =~= attached_ends(all_nodes, all_edges.take(k + 1)));
        }
        assert(all_edges.take(all_edges.len() as int) =~= all_edges);
        assert(attached_ends(all_nodes, Seq::<Edge<EdgeTool>>::empty()) =~= Seq::<(usize, usize)>::empty());
        Ok(graph)
    }

    /// The graph of nodes and edges loaded from JSON: as `try_from_parts`,
    /// with a construction error reported as a JSON loading error.
    pub fn from_json_parts(nodes: Vec<Node<NodeTool>>, edges: Vec<Edge<EdgeTool>>) -> (r: Result<Self, GraphJsonError>)
        requires
            nodes@.len() < u32::MAX,
            edges@.len() < u32::MAX,
        ensures
            match first_unresolved(nodes@, edges@) {
                None => r matches Ok(g) && g.wf() && g@.nodes == nodes@ && g@.edges == edges@
                    && g@.ends == attached_ends(nodes@, edges@) && g@.layers == Seq::<Seq<usize>>::empty(),
                Some(k) => r matches Err(GraphJsonError::Build(e)) && reports_missing(e, edges@[k]),
            },
    {
        match Self::try_from_parts(nodes, edges) {
            Ok(g) => Ok(g),
            Err(e) => Err(GraphJsonError::Build(e)),
        }
    }

    /// A graph of `nodes` and then `edges`, every edge's endpoint ids naming
    /// nodes.
    pub fn from_parts(nodes: Vec<Node<NodeTool>>, edges: Vec<Edge<EdgeTool>>) -> (g: Self)
        requires
            nodes@.len() < u32::MAX,
            edges@.len() < u32::MAX,
            first_unresolved(nodes@, edges@) is None,
        ensures
            g.wf(),
            g@.nodes == nodes@,
            g@.edges == edges@,
            g@.ends == attached_ends(nodes@, edges@),
            g@.layers == Seq::<Seq<usize>>::empty(),
    {
        match Self::try_from_parts(nodes, edges) {
            Ok(g) => g,
            Err(_) => {
                assert(false);
                Self::new()
            },
        }
    }
}

impl<NodeTool> Graph<NodeTool, ()> {
    /// Adds `nodes` as a new layer and connects each node of the previous
    /// layer to each node of the new layer with an active edge of kind
    /// `edge_kind`, named `"{from}->{to}"` after the ids it joins.
    pub fn add_layer(&mut self, nodes: Vec<Node<NodeTool>>, edge_kind: GraphEdgeKind) -> (r: Result<
        Vec<usize>,
        GraphBuildError,
    >)
        requires
            old(self).wf(),
            old(self)@.nodes.len() + nodes@.len() < u32::MAX,
            old(self)@.edges.len() + last_layer(old(self)@.layers).len() * nodes@.len() < u32::MAX,
        ensures
            final(self).wf(),
            r is Ok,
            exists|rows: Seq<Seq<Option<Edge<()>>>>|
                layer_connected(
                    final(self)@.nodes,
                    last_layer(old(self)@.layers),
                    old(self)@.nodes.len() as int,
                    nodes@.len() as int,
                    edge_kind,
                    rows,
                ) && layer_added(old(self)@, nodes@, present_edges(rows), final(self)@, r),
            final(self)@.edges.len() == old(self)@.edges.len() + last_layer(old(self)@.layers).len() * nodes@.len(),
            forall|p: int, q: int|
                0 <= p < last_layer(old(self)@.layers).len() && 0 <= q < nodes@.len() ==> layer_edge(
                    final(self)@.nodes[last_layer(old(self)@.layers)[p] as int],
                    final(self)@.nodes[old(self)@.nodes.len() + q],
                    edge_kind,
                    #[trigger] final(self)@.edges[old(self)@.edges.len() + p * nodes@.len() + q],
                ),
            old(self)@.layers.len() == 0 ==> final(self)@.edges == old(self)@.edges,
            old(self)@.layers.len() > 0 ==> final(self)@.edges.len() == old(self)@.edges.len()
                + old(self)@.layers[old(self)@.layers.len() - 1].len() * nodes@.len(),
            old(self)@.layers.len() > 0 ==> forall|p: int, q: int|
                0 <= p < old(self)@.layers[old(self)@.layers.len() - 1].len() && 0 <= q < nodes@.len()
                    ==> (#[trigger] final(self)@.edges[old(self)@.edges.len() + p * nodes@.len() + q]).from@
                    == final(self)@.nodes[old(self)@.layers[old(self)@.layers.len() - 1][p] as int].id@,
    {
        let ghost before = self@;
        let builder = |from: &Node<NodeTool>, to: &Node<NodeTool>| -> (e: Option<Edge<()>>)
            ensures
                e matches Some(edge) && layer_edge(*from, *to, edge_kind, edge),
            {
                let mut id = from.id.clone();
                id.append("->");
                id.append(to.id.as_str());
                Some(Edge { id, from: from.id.clone(), to: to.id.clone(), kind: edge_kind, active: true, tool: () })
            };
        let r = self.add_layer_with_edges(nodes, builder);
        proof {
            let rows = choose|rows: Seq<Seq<Option<Edge<()>>>>|
                built_by(
                    builder,
                    self@.nodes,
                    last_layer(before.layers),
                    before.nodes.len() as int,
                    nodes@.len() as int,
                    rows,
                ) && layer_added(before, nodes@, present_edges(rows), self@, r);
            let ns = self@.nodes;
            let prev = last_layer(before.layers);
            let base = before.nodes.len() as int;
            let m = nodes@.len() as int;
            assert forall|p: int, q: int| 0 <= p < rows.len() && 0 <= q < m implies ((#[trigger] rows[p][q]) matches Some(e)
                && layer_edge(ns[prev[p] as int], ns[base + q], edge_kind, e)) by {
                assert(call_ensures(builder, (&ns[prev[p] as int], &ns[base + q]), rows[p][q]));
            }
            assert forall|p: int, q: int|
                0 <= p < rows.len() && 0 <= q < rows[p].len() && (#[trigger] rows[p][q]) is Some implies resolves(
                    ns,
                    rows[p][q]->0,
                ) by {
                let e = rows[p][q]->0;
                assert(layer_edge(ns[prev[p] as int], ns[base + q], edge_kind, e));
                lemma_layer_ends_are_nodes(before, nodes@, prev, p);
                lemma_first_with_id_found(ns, prev[p] as int, e.from@);
                lemma_first_with_id_found(ns, base + q, e.to@);
            }
            lemma_present_edges_resolve(ns, rows);
            assert(layer_connected(ns, prev, base, m, edge_kind, rows));
            lemma_layer_edges_complete(ns, prev, base, m, edge_kind, rows);
            lemma_last_layer_is_latest(before.layers);
            let es = present_edges(rows);
            let k0 = before.edges.len() as int;
            assert(self@.edges == before.edges + es);
            assert forall|p: int, q: int| 0 <= p < prev.len() && 0 <= q < m implies layer_edge(
                ns[prev[p] as int],
                ns[base + q],
                edge_kind,
                #[trigger] self@.edges[k0 + p * m + q],
            ) by {
                assert(0 <= p * m + q < prev.len() * m) by (nonlinear_arith)
                    requires
                        0 <= p < prev.len(),
                        0 <= q < m,
                ;
                assert(self@.edges[k0 + p * m + q] == es[p * m + q]);
            }
        }
        r
    }
}

/// One more than the largest rank, or 0 for no ranks.
fn level_count_of(ranks: &Vec<usize>) -> (count: usize)
    requires
        forall|w: int| 0 <= w < ranks@.len() ==> #[trigger] ranks@[w] < ranks@.len(),
    ensures
        count == level_count(ranks@),
{
    let n = ranks.len();
    let mut count: usize = 0;
    let mut v: usize = 0;
    while v < n
        invariant
            n == ranks@.len(),
            forall|w: int| 0 <= w < n ==> #[trigger] ranks@[w] < n,
            v <= n,
            count == level_count(ranks@.take(v as int)),
            count <= n,
        decreases n - v,
    {
        assert(ranks@.take(v + 1).drop_last() =~= ranks@.take(v as int));
        if ranks[v] + 1 > count {
            count = ranks[v] + 1;
        }
        v = v + 1;
    }
    assert(ranks@.take(n as int) =~= ranks@);
    count
}

proof fn lemma_occupied_mirrored(n: nat)
    ensures
        occupied(mirrored_nodes(n)) == Seq::new(n, |j: int| j as usize),
    decreases n,
{
    if n > 0 {
        lemma_occupied_mirrored((n - 1) as nat);
        assert(mirrored_nodes(n).drop_last() =~= mirrored_nodes((n - 1) as nat));
        assert(Seq::new((n - 1) as nat, |j: int| j as usize).push((n - 1) as usize) =~= Seq::new(n, |j: int| j as usize));
    } else {
        assert(mirrored_nodes(0) =~= Seq::<Option<usize>>::empty());
        assert(Seq::new(0, |j: int| j as usize) =~= Seq::<usize>::empty());
    }
}

impl<NodeTool, EdgeTool> Default for Graph<NodeTool, EdgeTool> {
    fn default() -> (g: Self)
        ensures
            g.wf(),
            g@.nodes == Seq::<Node<NodeTool>>::empty(),
            g@.edges == Seq::<Edge<EdgeTool>>::empty(),
            g@.ends == Seq::<(usize, usize)>::empty(),
            g@.layers == Seq::<Seq<usize>>::empty(),
    {
        Self::new()
    }
}

} // verus!
