//! Layered top-to-bottom layout planning and DOT export.
//!
//! Nodes with no incoming edge start at the top rank and each edge pushes its
//! target into a lower rank; nodes of equal rank share a layer, in node
//! order. An edge's `active` flag is render state only and does not affect
//! ranking.

use vstd::prelude::*;
use vstd::string::StringExecFns;

use crate::edge::Edge;
use crate::graph::{first_with_id, Graph};
use crate::layout_engine::rank::{
    acyclic, edges_within, has_edge, is_layering, layer_ranks, lemma_acyclic_ranks, lemma_contains_take,
    lemma_layering_unique, lemma_occurrences_positive, lemma_occurrences_take, occurrences,
};
use crate::node::Node;
use crate::shape::{kind_dot_name, shape_geometry_on_row, shape_kind, GraphNodeGeometry};
use crate::text::push_char;

verus! {

/// The position of the last node whose id is `id`.
pub open spec fn last_with_id<T>(nodes: Seq<Node<T>>, id: Seq<char>) -> Option<int>
    decreases nodes.len(),
{
    if nodes.len() == 0 {
        None
    } else if nodes.last().id@ == id {
        Some(nodes.len() - 1)
    } else {
        last_with_id(nodes.drop_last(), id)
    }
}

/// The edges that ranking follows: each edge whose endpoint ids both name
/// nodes, joining the last nodes with those ids.
pub open spec fn rank_edges<T, U>(nodes: Seq<Node<T>>, edges: Seq<Edge<U>>) -> Seq<(usize, usize)>
    decreases edges.len(),
{
    if edges.len() == 0 {
        Seq::empty()
    } else {
        let r = rank_edges(nodes, edges.drop_last());
        let e = edges.last();
        match (last_with_id(nodes, e.from@), last_with_id(nodes, e.to@)) {
            (Some(a), Some(b)) => r.push((a as usize, b as usize)),
            _ => r,
        }
    }
}

proof fn lemma_last_with_id_range<T>(nodes: Seq<Node<T>>, id: Seq<char>)
    ensures
        last_with_id(nodes, id) matches Some(i) ==> 0 <= i < nodes.len(),
    decreases nodes.len(),
{
    if nodes.len() > 0 {
        lemma_last_with_id_range(nodes.drop_last(), id);
    }
}

/// Whether two node lists hold the same ids at the same positions, whatever
/// their other fields.
pub open spec fn same_ids<T, V>(a: Seq<Node<T>>, b: Seq<Node<V>>) -> bool {
    &&& a.len() == b.len()
    &&& forall|i: int| 0 <= i < a.len() ==> (#[trigger] a[i]).id@ == b[i].id@
}

proof fn lemma_last_with_id_same_ids<T, V>(a: Seq<Node<T>>, b: Seq<Node<V>>, id: Seq<char>)
    requires
        same_ids(a, b),
    ensures
        last_with_id(a, id) == last_with_id(b, id),
    decreases a.len(),
{
    if a.len() > 0 {
        let a0 = a.drop_last();
        let b0 = b.drop_last();
        assert forall|i: int| 0 <= i < a0.len() implies (#[trigger] a0[i]).id@ == b0[i].id@ by {
            assert(a0[i] == a[i] && b0[i] == b[i]);
        }
        lemma_last_with_id_same_ids(a0, b0, id);
        assert(a.last().id@ == b.last().id@);
    }
}

/// Ranking reads nothing of a node but its id: two node lists with the same
/// ids give the same ranked edges, whatever their labels, shapes, render
/// states or payloads.
pub proof fn lemma_rank_edges_read_ids_only<T, V, U>(a: Seq<Node<T>>, b: Seq<Node<V>>, edges: Seq<Edge<U>>)
    requires
        same_ids(a, b),
    ensures
        rank_edges(a, edges) == rank_edges(b, edges),
    decreases edges.len(),
{
    if edges.len() > 0 {
        lemma_rank_edges_read_ids_only(a, b, edges.drop_last());
        lemma_last_with_id_same_ids(a, b, edges.last().from@);
        lemma_last_with_id_same_ids(a, b, edges.last().to@);
    }
}

/// Ranking follows every edge whose endpoint ids both name nodes, active or
/// not: edge `k` gives the pair of the last nodes with its ids, and every
/// ranked pair comes from such an edge.
#[verifier::spinoff_prover]
#[verifier::rlimit(40)]
pub proof fn lemma_rank_edges_cover<T, U>(nodes: Seq<Node<T>>, edges: Seq<Edge<U>>)
    requires
        nodes.len() <= usize::MAX,
    ensures
        forall|k: int|
            0 <= k < edges.len() && last_with_id(nodes, (#[trigger] edges[k]).from@) is Some && last_with_id(
                nodes,
                edges[k].to@,
            ) is Some ==> has_edge(
                rank_edges(nodes, edges),
                last_with_id(nodes, edges[k].from@)->0,
                last_with_id(nodes, edges[k].to@)->0,
            ),
        forall|j: int|
            0 <= j < rank_edges(nodes, edges).len() ==> exists|k: int|
                0 <= k < edges.len() && last_with_id(nodes, (#[trigger] edges[k]).from@) == Some(
                    (#[trigger] rank_edges(nodes, edges)[j]).0 as int,
                ) && last_with_id(nodes, edges[k].to@) == Some(rank_edges(nodes, edges)[j].1 as int),
        rank_edges(nodes, edges).len() <= edges.len(),
    decreases edges.len(),
{
    if edges.len() > 0 {
        let init = edges.drop_last();
        lemma_rank_edges_cover(nodes, init);
        lemma_last_with_id_range(nodes, edges.last().from@);
        lemma_last_with_id_range(nodes, edges.last().to@);
        let r0 = rank_edges(nodes, init);
        let r = rank_edges(nodes, edges);
        assert forall|k: int|
            0 <= k < edges.len() && last_with_id(nodes, (#[trigger] edges[k]).from@) is Some && last_with_id(
                nodes,
                edges[k].to@,
            ) is Some implies has_edge(r, last_with_id(nodes, edges[k].from@)->0, last_with_id(nodes, edges[k].to@)->0) by {
            if k < edges.len() - 1 {
                assert(init[k] == edges[k]);
                let i = choose|i: int| 0 <= i < r0.len() && (#[trigger] r0[i]).0 == last_with_id(nodes, init[k].from@)->0
                    && r0[i].1 == last_with_id(nodes, init[k].to@)->0;
                assert(r[i] == r0[i]);
            } else {
                assert(edges[k] == edges.last());
                let a = last_with_id(nodes, edges.last().from@)->0;
                let b = last_with_id(nodes, edges.last().to@)->0;
                assert(r == r0.push((a as usize, b as usize)));
                assert(r[r0.len() as int] == (a as usize, b as usize));
                assert(has_edge(r, a, b));
            }
        }
        assert forall|j: int| 0 <= j < r.len() implies exists|k: int|
            0 <= k < edges.len() && last_with_id(nodes, (#[trigger] edges[k]).from@) == Some((#[trigger] r[j]).0 as int)
                && last_with_id(nodes, edges[k].to@) == Some(r[j].1 as int) by {
            if j < r0.len() {
                assert(r[j] == r0[j]);
                let k = choose|k: int|
                    0 <= k < init.len() && last_with_id(nodes, (#[trigger] init[k]).from@) == Some(r0[j].0 as int)
                        && last_with_id(nodes, init[k].to@) == Some(r0[j].1 as int);
                assert(init[k] == edges[k]);
            } else {
                let k = edges.len() - 1;
                assert(edges[k] == edges.last());
                assert(r.len() == r0.len() + 1);
                let a = last_with_id(nodes, edges.last().from@)->0;
                let b = last_with_id(nodes, edges.last().to@)->0;
                assert(r == r0.push((a as usize, b as usize)));
                assert(r[j] == (a as usize, b as usize));
            }
        }
    }
}

/// Two graphs with the same edges whose nodes carry the same ids get the same
/// ranks: a node's render state, label, shape or payload plays no part in
/// ranking.
pub proof fn lemma_ranks_read_ids_only<T, V, U>(
    a: Seq<Node<T>>,
    b: Seq<Node<V>>,
    edges: Seq<Edge<U>>,
    ra: Seq<usize>,
    rb: Seq<usize>,
)
    requires
        same_ids(a, b),
        is_layering(a.len(), rank_edges(a, edges), ra),
        is_layering(b.len(), rank_edges(b, edges), rb),
    ensures
        ra == rb,
{
    lemma_rank_edges_read_ids_only(a, b, edges);
    lemma_layering_unique(a.len(), rank_edges(a, edges), ra, rb);
}

/// When the graph's edges form no cycle, every edge whose endpoint ids both
/// name nodes pushes its target below its source: the target's rank is
/// greater than the source's, active or not.
#[verifier::spinoff_prover]
pub proof fn lemma_graph_edges_descend<T, U>(nodes: Seq<Node<T>>, edges: Seq<Edge<U>>, ranks: Seq<usize>)
    requires
        nodes.len() <= usize::MAX,
        is_layering(nodes.len(), rank_edges(nodes, edges), ranks),
        acyclic(nodes.len(), rank_edges(nodes, edges)),
    ensures
        forall|k: int|
            0 <= k < edges.len() && last_with_id(nodes, (#[trigger] edges[k]).from@) is Some && last_with_id(
                nodes,
                edges[k].to@,
            ) is Some ==> ranks[last_with_id(nodes, edges[k].to@)->0] > ranks[last_with_id(nodes, edges[k].from@)->0],
{
    let pairs = rank_edges(nodes, edges);
    lemma_rank_edges_cover(nodes, edges);
    assert forall|j: int| 0 <= j < pairs.len() implies (#[trigger] pairs[j]).0 < nodes.len() && pairs[j].1 < nodes.len() by {
        let k = choose|k: int|
            0 <= k < edges.len() && last_with_id(nodes, (#[trigger] edges[k]).from@) == Some(pairs[j].0 as int)
                && last_with_id(nodes, edges[k].to@) == Some(pairs[j].1 as int);
        lemma_last_with_id_range(nodes, edges[k].from@);
        lemma_last_with_id_range(nodes, edges[k].to@);
    }
    assert(edges_within(nodes.len(), pairs));
    lemma_acyclic_ranks(nodes.len(), pairs, ranks);
    assert forall|k: int|
        0 <= k < edges.len() && last_with_id(nodes, (#[trigger] edges[k]).from@) is Some && last_with_id(
            nodes,
            edges[k].to@,
        ) is Some implies ranks[last_with_id(nodes, edges[k].to@)->0] > ranks[last_with_id(nodes, edges[k].from@)->0] by {
        let a = last_with_id(nodes, edges[k].from@)->0;
        let b = last_with_id(nodes, edges[k].to@)->0;
        assert(has_edge(pairs, a, b));
        let i = choose|i: int| 0 <= i < pairs.len() && (#[trigger] pairs[i]).0 == a && pairs[i].1 == b;
        assert(ranks[pairs[i].1 as int] > ranks[pairs[i].0 as int]);
    }
}

/// The position of the last node of `nodes` whose id is `id`.
fn last_position<T>(nodes: &Vec<&Node<T>>, id: &String, Ghost(ns): Ghost<Seq<Node<T>>>) -> (r: Option<usize>)
    requires
        nodes@.len() == ns.len(),
        forall|i: int| 0 <= i < ns.len() ==> *nodes@[i] == ns[i],
    ensures
        match last_with_id(ns, id@) {
            Some(i) => r == Some(i as usize),
            None => r is None,
        },
{
    let mut found: Option<usize> = None;
    let mut i: usize = 0;
    while i < nodes.len()
        invariant
            nodes@.len() == ns.len(),
            forall|j: int| 0 <= j < ns.len() ==> *nodes@[j] == ns[j],
            i <= ns.len(),
            match last_with_id(ns.take(i as int), id@) {
                Some(j) => found == Some(j as usize),
                None => found is None,
            },
        decreases ns.len() - i,
    {
        assert(ns.take(i + 1).drop_last() =~= ns.take(i as int));
        assert(ns.take(i + 1).last() == ns[i as int]);
        if nodes[i].id == *id {
            found = Some(i);
        }
        i = i + 1;
    }
    assert(ns.take(ns.len() as int) =~= ns);
    found
}

/// The layer rank of each node: see the module documentation of
/// `layout_engine::rank`.
pub fn hierarchical_ranks<NodeTool, EdgeTool>(graph: &Graph<NodeTool, EdgeTool>) -> (ranks: Vec<usize>)
    requires
        graph.wf(),
    ensures
        is_layering(graph@.nodes.len(), rank_edges(graph@.nodes, graph@.edges), ranks@),
        acyclic(graph@.nodes.len(), rank_edges(graph@.nodes, graph@.edges)) ==> forall|k: int|
            0 <= k < graph@.edges.len() && last_with_id(graph@.nodes, (#[trigger] graph@.edges[k]).from@) is Some
                && last_with_id(graph@.nodes, graph@.edges[k].to@) is Some ==> ranks@[last_with_id(
                graph@.nodes,
                graph@.edges[k].to@,
            )->0] > ranks@[last_with_id(graph@.nodes, graph@.edges[k].from@)->0],
{
    let nodes = graph.nodes();
    let edges = graph.edges();
    let ghost ns = graph@.nodes;
    let ghost es = graph@.edges;
    let n = nodes.len();
    let mut pairs: Vec<(usize, usize)> = Vec::new();
    let mut k: usize = 0;
    while k < edges.len()
        invariant
            nodes@.len() == ns.len(),
            n == ns.len(),
            forall|i: int| 0 <= i < ns.len() ==> *nodes@[i] == ns[i],
            edges@.len() == es.len(),
            forall|i: int| 0 <= i < es.len() ==> *edges@[i] == es[i],
            k <= es.len(),
            pairs@ == rank_edges(ns, es.take(k as int)),
            edges_within(n as nat, pairs@),
        decreases es.len() - k,
    {
        let e = edges[k];
        assert(es.take(k + 1).drop_last() =~= es.take(k as int));
        assert(es.take(k + 1).last() == es[k as int]);
        let from = last_position(&nodes, &e.from, Ghost(ns));
        let to = last_position(&nodes, &e.to, Ghost(ns));
        proof {
            lemma_last_with_id_range(ns, e.from@);
            lemma_last_with_id_range(ns, e.to@);
        }
        match (from, to) {
            (Some(a), Some(b)) => {
                pairs.push((a, b));
            },
            _ => {},
        }
        k = k + 1;
    }
    assert(es.take(es.len() as int) =~= es);
    let ranks = layer_ranks(n, &pairs);
    proof {
        if acyclic(n as nat, pairs@) {
            lemma_graph_edges_descend(ns, es, ranks@);
        }
    }
    ranks
}

/// Whether position `u` of `r` holds the first occurrence of its value.
pub open spec fn first_occurrence(r: Seq<usize>, u: int) -> bool {
    !r.take(u).contains(r[u])
}

/// The number of distinct values among `r[0..k]` that are below `x`.
pub open spec fn distinct_below(r: Seq<usize>, k: nat, x: int) -> nat
    decreases k,
{
    if k == 0 {
        0
    } else {
        distinct_below(r, (k - 1) as nat, x) + if first_occurrence(r, k - 1) && r[k - 1] < x {
            1nat
        } else {
            0nat
        }
    }
}

/// The number of distinct values among `r[0..k]`.
pub open spec fn distinct_count(r: Seq<usize>, k: nat) -> nat
    decreases k,
{
    if k == 0 {
        0
    } else {
        distinct_count(r, (k - 1) as nat) + if first_occurrence(r, k - 1) {
            1nat
        } else {
            0nat
        }
    }
}

/// The layer of node `v`: the number of distinct ranks below its rank.
pub open spec fn layer_of(r: Seq<usize>, v: int) -> nat {
    distinct_below(r, r.len(), r[v] as int)
}

/// Where a node goes in the layered drawing.
#[derive(Clone, Debug, PartialEq)]
pub struct NodePlacement {
    /// The node's rank, which is also the row of its geometry.
    pub rank: usize,
    /// The index of the node's rank among the distinct ranks, lowest first.
    pub layer: usize,
    /// The number of nodes of the same rank before this one.
    pub slot: usize,
    /// The number of nodes of the node's rank.
    pub layer_size: usize,
    /// The node's shape geometry on its row.
    pub geometry: Option<GraphNodeGeometry>,
}

/// Which way an edge runs between layers, with the connector bands (the gap
/// below a layer is its band) that it passes through.
#[derive(Clone, Copy, Debug, PartialEq, Eq, Structural)]
pub enum EdgeDirection {
    /// Into a lower layer: leaves through the band below its source layer and
    /// enters through the band above its target layer.
    Down { source_band: usize, target_band: usize },
    /// Into a higher layer: leaves through the band above its source layer
    /// and enters through the band below its target layer.
    Up { source_band: usize, target_band: usize },
    /// Within one layer.
    Across,
}

/// How one edge is drawn: its endpoints, its place among the edges that
/// leave its source and enter its target, and its direction.
#[derive(Clone, Copy, Debug, PartialEq, Eq, Structural)]
pub struct EdgeRoute {
    /// The edge's position in the graph.
    pub edge: usize,
    pub from: usize,
    pub to: usize,
    pub source_slot: usize,
    pub source_slot_count: usize,
    pub target_slot: usize,
    pub target_slot_count: usize,
    pub source_layer: usize,
    pub target_layer: usize,
    pub direction: EdgeDirection,
}

/// The integer part of a layered drawing: node placements, edge routes and
/// the number of layers.
#[derive(Clone, Debug, PartialEq)]
pub struct LayoutPlan {
    pub nodes: Vec<NodePlacement>,
    pub edges: Vec<EdgeRoute>,
    pub layer_count: usize,
}

/// The edges a drawing routes, as (edge position, source position, target
/// position): every edge whose endpoint ids both name nodes, joining the
/// first nodes with those ids.
pub open spec fn edge_records<T, U>(nodes: Seq<Node<T>>, edges: Seq<Edge<U>>) -> Seq<(usize, usize, usize)>
    decreases edges.len(),
{
    if edges.len() == 0 {
        Seq::empty()
    } else {
        let r = edge_records(nodes, edges.drop_last());
        let e = edges.last();
        match (first_with_id(nodes, e.from@), first_with_id(nodes, e.to@)) {
            (Some(a), Some(b)) => r.push(((edges.len() - 1) as usize, a as usize, b as usize)),
            _ => r,
        }
    }
}

pub open spec fn record_sources(recs: Seq<(usize, usize, usize)>) -> Seq<usize> {
    Seq::new(recs.len(), |j: int| recs[j].1)
}

pub open spec fn record_targets(recs: Seq<(usize, usize, usize)>) -> Seq<usize> {
    Seq::new(recs.len(), |j: int| recs[j].2)
}

/// The direction of an edge from layer `sl` to layer `tl`.
pub open spec fn direction_between(sl: int, tl: int) -> EdgeDirection {
    if tl > sl {
        EdgeDirection::Down { source_band: sl as usize, target_band: (tl - 1) as usize }
    } else if tl < sl {
        EdgeDirection::Up { source_band: (sl - 1) as usize, target_band: tl as usize }
    } else {
        EdgeDirection::Across
    }
}

/// Whether `route` is how record `j` of `recs` is drawn under ranks `r`:
/// its slot at an endpoint counts the earlier records at that endpoint.
pub open spec fn routes_record(recs: Seq<(usize, usize, usize)>, r: Seq<usize>, j: int, route: EdgeRoute) -> bool {
    let rec = recs[j];
    let sl = layer_of(r, rec.1 as int);
    let tl = layer_of(r, rec.2 as int);
    &&& route.edge == rec.0 && route.from == rec.1 && route.to == rec.2
    &&& route.source_slot == occurrences(record_sources(recs).take(j), rec.1 as int)
    &&& route.source_slot_count == occurrences(record_sources(recs), rec.1 as int)
    &&& route.target_slot == occurrences(record_targets(recs).take(j), rec.2 as int)
    &&& route.target_slot_count == occurrences(record_targets(recs), rec.2 as int)
    &&& route.source_layer == sl && route.target_layer == tl
    &&& route.direction == direction_between(sl as int, tl as int)
}

/// The route of an edge follows from the layers of its ends: down into a
/// lower layer, leaving through the band below its source layer and entering
/// through the band above its target layer; up into a higher layer, leaving
/// through the band above its source layer and entering through the band
/// below its target layer; across when both ends share a layer.
pub open spec fn route_follows_layers(route: EdgeRoute) -> bool {
    &&& (route.direction is Down <==> route.target_layer > route.source_layer)
    &&& (route.direction is Up <==> route.target_layer < route.source_layer)
    &&& (route.direction is Across <==> route.target_layer == route.source_layer)
    &&& (route.direction matches EdgeDirection::Down { source_band, target_band } ==> source_band
        == route.source_layer && target_band + 1 == route.target_layer)
    &&& (route.direction matches EdgeDirection::Up { source_band, target_band } ==> source_band + 1
        == route.source_layer && target_band == route.target_layer)
}

/// Every routed edge runs down, up or across according to the layers of its
/// ends, through the connector bands next to those layers.
pub proof fn lemma_route_direction(recs: Seq<(usize, usize, usize)>, r: Seq<usize>, j: int, route: EdgeRoute)
    requires
        routes_record(recs, r, j, route),
    ensures
        route_follows_layers(route),
{
}

/// The ranks of a plan's node placements.
pub open spec fn plan_ranks(plan: LayoutPlan) -> Seq<usize> {
    Seq::new(plan.nodes@.len(), |v: int| plan.nodes@[v].rank)
}

/// Whether `p` places node `v` under ranks `r`.
pub open spec fn places(r: Seq<usize>, v: int, p: NodePlacement) -> bool {
    &&& p.rank == r[v]
    &&& p.layer == layer_of(r, v)
    &&& p.slot == occurrences(r.take(v), r[v] as int)
    &&& p.layer_size == occurrences(r, r[v] as int)
}

proof fn lemma_distinct_below_bound(r: Seq<usize>, k: nat, x: int)
    ensures
        distinct_below(r, k, x) <= k,
        distinct_count(r, k) <= k,
    decreases k,
{
    if k > 0 {
        lemma_distinct_below_bound(r, (k - 1) as nat, x);
    }
}

proof fn lemma_occurrences_bound(s: Seq<usize>, v: int)
    ensures
        occurrences(s, v) <= s.len(),
    decreases s.len(),
{
    if s.len() > 0 {
        lemma_occurrences_bound(s.drop_last(), v);
    }
}

/// Counts the positions `u < k` of `r` holding `x`.
fn count_value(r: &Vec<usize>, k: usize, x: usize) -> (c: usize)
    requires
        k <= r@.len(),
    ensures
        c == occurrences(r@.take(k as int), x as int),
{
    let mut c: usize = 0;
    let mut u: usize = 0;
    while u < k
        invariant
            k <= r@.len(),
            u <= k,
            c == occurrences(r@.take(u as int), x as int),
        decreases k - u,
    {
        proof {
            lemma_occurrences_take(r@, u as int, x as int);
            lemma_occurrences_bound(r@.take(u as int), x as int);
        }
        if r[u] == x {
            c = c + 1;
        }
        u = u + 1;
    }
    c
}

/// Plans a layered drawing of `graph`: ranks its nodes, groups equal ranks
/// into layers in rank order, and routes every edge whose endpoint ids name
/// nodes.
pub fn layout_plan<NodeTool, EdgeTool>(graph: &Graph<NodeTool, EdgeTool>) -> (plan: LayoutPlan)
    requires
        graph.wf(),
    ensures
        plan.nodes@.len() == graph@.nodes.len(),
        is_layering(graph@.nodes.len(), rank_edges(graph@.nodes, graph@.edges), plan_ranks(plan)),
        forall|v: int| 0 <= v < graph@.nodes.len() ==> places(plan_ranks(plan), v, #[trigger] plan.nodes@[v])
            && shape_geometry_on_row(graph@.nodes[v].shape, plan.nodes@[v].rank, plan.nodes@[v].geometry),
        plan.layer_count == (if distinct_count(plan_ranks(plan), graph@.nodes.len()) == 0 {
            1
        } else {
            distinct_count(plan_ranks(plan), graph@.nodes.len())
        }),
        plan.edges@.len() == edge_records(graph@.nodes, graph@.edges).len(),
        forall|j: int| 0 <= j < plan.edges@.len() ==> routes_record(
            edge_records(graph@.nodes, graph@.edges),
            plan_ranks(plan),
            j,
            #[trigger] plan.edges@[j],
        ),
        forall|j: int| 0 <= j < plan.edges@.len() ==> route_follows_layers(#[trigger] plan.edges@[j]),
{
    let ranks = hierarchical_ranks(graph);
    let nodes = graph.nodes();
    let edges = graph.edges();
    let ghost ns = graph@.nodes;
    let ghost es = graph@.edges;
    let ghost r = ranks@;
    let n = ranks.len();
    // First occurrences of each rank value.
    let mut first: Vec<bool> = Vec::new();
    let mut u: usize = 0;
    while u < n
        invariant
            n == r.len(),
            ranks@ == r,
            u <= n,
            first@.len() == u,
            forall|w: int| 0 <= w < u ==> #[trigger] first@[w] == first_occurrence(r, w),
        decreases n - u,
    {
        let mut seen = false;
        let mut w: usize = 0;
        while w < u
            invariant
                ranks@ == r,
                u < n,
                n == r.len(),
                w <= u,
                seen == r.take(w as int).contains(r[u as int]),
            decreases u - w,
        {
            proof {
                lemma_contains_take(r, w as int, r[u as int]);
            }
            if ranks[w] == ranks[u] {
                seen = true;
            }
            w = w + 1;
        }
        first.push(!seen);
        u = u + 1;
    }
    // Distinct rank count.
    let mut distinct: usize = 0;
    let mut u: usize = 0;
    while u < n
        invariant
            n == r.len(),
            first@.len() == n,
            forall|w: int| 0 <= w < n ==> #[trigger] first@[w] == first_occurrence(r, w),
            u <= n,
            distinct == distinct_count(r, u as nat),
        decreases n - u,
    {
        proof {
            lemma_distinct_below_bound(r, u as nat, 0);
        }
        if first[u] {
            distinct = distinct + 1;
        }
        u = u + 1;
    }
    // Node placements.
    let mut placements: Vec<NodePlacement> = Vec::new();
    let mut v: usize = 0;
    while v < n
        invariant
            n == r.len(),
            ranks@ == r,
            n == ns.len(),
            nodes@.len() == ns.len(),
            forall|i: int| 0 <= i < ns.len() ==> *nodes@[i] == ns[i],
            first@.len() == n,
            forall|w: int| 0 <= w < n ==> #[trigger] first@[w] == first_occurrence(r, w),
            v <= n,
            placements@.len() == v,
            forall|w: int| 0 <= w < v ==> places(r, w, #[trigger] placements@[w]) && shape_geometry_on_row(
                ns[w].shape,
                placements@[w].rank,
                placements@[w].geometry,
            ),
        decreases n - v,
    {
        let x = ranks[v];
        let mut layer: usize = 0;
        let mut u: usize = 0;
        while u < n
            invariant
                n == r.len(),
                ranks@ == r,
                first@.len() == n,
                forall|w: int| 0 <= w < n ==> #[trigger] first@[w] == first_occurrence(r, w),
                u <= n,
                layer == distinct_below(r, u as nat, x as int),
            decreases n - u,
        {
            proof {
                lemma_distinct_below_bound(r, u as nat, x as int);
            }
            if first[u] && ranks[u] < x {
                layer = layer + 1;
            }
            u = u + 1;
        }
        assert(r.take(n as int) =~= r);
        let slot = count_value(&ranks, v, x);
        let layer_size = count_value(&ranks, n, x);
        let geometry = nodes[v].shape.geometry_for_row(x);
        placements.push(NodePlacement { rank: x, layer, slot, layer_size, geometry });
        v = v + 1;
    }
    // Edge records: edges whose endpoint ids name nodes.
    let mut records: Vec<(usize, usize, usize)> = Vec::new();
    let mut k: usize = 0;
    while k < edges.len()
        invariant
            edges@.len() == es.len(),
            forall|i: int| 0 <= i < es.len() ==> *edges@[i] == es[i],
            graph.wf(),
            ns == graph@.nodes,
            es == graph@.edges,
            n == ns.len(),
            k <= es.len(),
            records@ == edge_records(ns, es.take(k as int)),
            forall|j: int| 0 <= j < records@.len() ==> (#[trigger] records@[j]).1 < n && records@[j].2 < n,
            records@.len() <= k,
        decreases es.len() - k,
    {
        let e = edges[k];
        assert(es.take(k + 1).drop_last() =~= es.take(k as int));
        assert(es.take(k + 1).last() == es[k as int]);
        let from = graph.node_index(e.from.as_str());
        let to = graph.node_index(e.to.as_str());
        proof {
            crate::graph::lemma_first_with_id_range(ns, e.from@);
            crate::graph::lemma_first_with_id_range(ns, e.to@);
        }
        match (from, to) {
            (Some(a), Some(b)) => {
                records.push((k, a, b));
            },
            _ => {},
        }
        k = k + 1;
    }
    assert(es.take(es.len() as int) =~= es);
    let ghost recs = records@;
    let ghost srcs = record_sources(recs);
    let ghost tgts = record_targets(recs);
    // Slot counts at each endpoint.
    let mut source_counts: Vec<usize> = Vec::new();
    let mut target_counts: Vec<usize> = Vec::new();
    let mut v: usize = 0;
    while v < n
        invariant
            v <= n,
            source_counts@.len() == v,
            target_counts@.len() == v,
            forall|w: int| 0 <= w < v ==> #[trigger] source_counts@[w] == 0,
            forall|w: int| 0 <= w < v ==> #[trigger] target_counts@[w] == 0,
        decreases n - v,
    {
        source_counts.push(0);
        target_counts.push(0);
        v = v + 1;
    }
    assert(srcs.take(0) =~= Seq::<usize>::empty());
    assert(tgts.take(0) =~= Seq::<usize>::empty());
    let mut j: usize = 0;
    while j < records.len()
        invariant
            records@ == recs,
            srcs == record_sources(recs),
            tgts == record_targets(recs),
            forall|i: int| 0 <= i < recs.len() ==> (#[trigger] recs[i]).1 < n && recs[i].2 < n,
            j <= recs.len(),
            source_counts@.len() == n,
            target_counts@.len() == n,
            forall|w: int| 0 <= w < n ==> #[trigger] source_counts@[w] == occurrences(srcs.take(j as int), w),
            forall|w: int| 0 <= w < n ==> #[trigger] target_counts@[w] == occurrences(tgts.take(j as int), w),
        decreases recs.len() - j,
    {
        let (_, a, b) = records[j];
        proof {
            assert forall|w: int| 0 <= w < n implies #[trigger] occurrences(srcs.take(j + 1), w) == occurrences(srcs.take(j as int), w) + if srcs[j as int] == w { 1nat } else { 0nat } by {
                lemma_occurrences_take(srcs, j as int, w);
            }
            assert forall|w: int| 0 <= w < n implies #[trigger] occurrences(tgts.take(j + 1), w) == occurrences(tgts.take(j as int), w) + if tgts[j as int] == w { 1nat } else { 0nat } by {
                lemma_occurrences_take(tgts, j as int, w);
            }
            lemma_occurrences_bound(srcs.take(j as int), a as int);
            lemma_occurrences_bound(tgts.take(j as int), b as int);
        }
        let sa = source_counts[a];
        source_counts.set(a, sa + 1);
        let tb = target_counts[b];
        target_counts.set(b, tb + 1);
        j = j + 1;
    }
    assert(srcs.take(recs.len() as int) =~= srcs);
    assert(tgts.take(recs.len() as int) =~= tgts);
    // Routes.
    let ghost pr = Seq::new(placements@.len(), |w: int| placements@[w].rank);
    assert(pr =~= r);
    let mut source_slots: Vec<usize> = Vec::new();
    let mut target_slots: Vec<usize> = Vec::new();
    let mut v: usize = 0;
    while v < n
        invariant
            v <= n,
            source_slots@.len() == v,
            target_slots@.len() == v,
            forall|w: int| 0 <= w < v ==> #[trigger] source_slots@[w] == 0,
            forall|w: int| 0 <= w < v ==> #[trigger] target_slots@[w] == 0,
        decreases n - v,
    {
        source_slots.push(0);
        target_slots.push(0);
        v = v + 1;
    }
    let mut routes: Vec<EdgeRoute> = Vec::new();
    assert(srcs.take(0) =~= Seq::<usize>::empty());
    assert(tgts.take(0) =~= Seq::<usize>::empty());
    let mut j: usize = 0;
    while j < records.len()
        invariant
            records@ == recs,
            srcs == record_sources(recs),
            tgts == record_targets(recs),
            n == r.len(),
            forall|i: int| 0 <= i < recs.len() ==> (#[trigger] recs[i]).1 < n && recs[i].2 < n,
            j <= recs.len(),
            placements@.len() == n,
            forall|w: int| 0 <= w < n ==> places(r, w, #[trigger] placements@[w]),
            source_counts@.len() == n,
            target_counts@.len() == n,
            forall|w: int| 0 <= w < n ==> #[trigger] source_counts@[w] == occurrences(srcs, w),
            forall|w: int| 0 <= w < n ==> #[trigger] target_counts@[w] == occurrences(tgts, w),
            source_slots@.len() == n,
            target_slots@.len() == n,
            forall|w: int| 0 <= w < n ==> #[trigger] source_slots@[w] == occurrences(srcs.take(j as int), w),
            forall|w: int| 0 <= w < n ==> #[trigger] target_slots@[w] == occurrences(tgts.take(j as int), w),
            routes@.len() == j,
            forall|i: int| 0 <= i < j ==> routes_record(recs, r, i, #[trigger] routes@[i]),
        decreases recs.len() - j,
    {
        let (edge, from, to) = records[j];
        proof {
            assert forall|w: int| 0 <= w < n implies #[trigger] occurrences(srcs.take(j + 1), w) == occurrences(srcs.take(j as int), w) + if srcs[j as int] == w { 1nat } else { 0nat } by {
                lemma_occurrences_take(srcs, j as int, w);
            }
            assert forall|w: int| 0 <= w < n implies #[trigger] occurrences(tgts.take(j + 1), w) == occurrences(tgts.take(j as int), w) + if tgts[j as int] == w { 1nat } else { 0nat } by {
                lemma_occurrences_take(tgts, j as int, w);
            }
            lemma_occurrences_bound(srcs.take(j as int), from as int);
            lemma_occurrences_bound(tgts.take(j as int), to as int);
            lemma_occurrences_positive(srcs, j as int);
            lemma_occurrences_positive(tgts, j as int);
        }
        let source_slot = source_slots[from];
        let target_slot = target_slots[to];
        let source_slot_count = if source_counts[from] > 1 { source_counts[from] } else { 1 };
        let target_slot_count = if target_counts[to] > 1 { target_counts[to] } else { 1 };
        source_slots.set(from, source_slot + 1);
        target_slots.set(to, target_slot + 1);
        let source_layer = placements[from].layer;
        let target_layer = placements[to].layer;
        let direction = if target_layer > source_layer {
            EdgeDirection::Down { source_band: source_layer, target_band: target_layer - 1 }
        } else if target_layer < source_layer {
            EdgeDirection::Up { source_band: source_layer - 1, target_band: target_layer }
        } else {
            EdgeDirection::Across
        };
        routes.push(
            EdgeRoute {
                edge,
                from,
                to,
                source_slot,
                source_slot_count,
                target_slot,
                target_slot_count,
                source_layer,
                target_layer,
                direction,
            },
        );
        j = j + 1;
    }
    let layer_count = if distinct > 1 { distinct } else { 1 };
    let plan = LayoutPlan { nodes: placements, edges: routes, layer_count };
    assert(plan_ranks(plan) =~= r);
    assert forall|j: int| 0 <= j < plan.edges@.len() implies route_follows_layers(#[trigger] plan.edges@[j]) by {
        lemma_route_direction(recs, r, j, plan.edges@[j]);
    }
    plan
}

proof fn lemma_first_occurrence_exists(r: Seq<usize>, u: int)
    requires
        0 <= u < r.len(),
    ensures
        exists|f: int| 0 <= f <= u && #[trigger] first_occurrence(r, f) && r[f] == r[u],
    decreases u,
{
    if !first_occurrence(r, u) {
        let w = choose|w: int| 0 <= w < r.take(u).len() && r.take(u)[w] == r[u];
        assert(r[w] == r[u]);
        lemma_first_occurrence_exists(r, w);
        let f = choose|f: int| 0 <= f <= w && #[trigger] first_occurrence(r, f) && r[f] == r[w];
        assert(0 <= f <= u && first_occurrence(r, f) && r[f] == r[u]);
    } else {
        assert(0 <= u <= u && first_occurrence(r, u) && r[u] == r[u]);
    }
}

proof fn lemma_distinct_below_monotone(r: Seq<usize>, k: nat, x: int, y: int, f: int)
    requires
        k <= r.len(),
        x <= y,
        0 <= f < r.len(),
        first_occurrence(r, f),
        x <= r[f] < y,
    ensures
        distinct_below(r, k, y) >= distinct_below(r, k, x) + if f < k { 1nat } else { 0nat },
    decreases k,
{
    if k > 0 {
        lemma_distinct_below_monotone(r, (k - 1) as nat, x, y, f);
    }
}

/// Layers follow ranks: a node of lower rank is in a higher layer, and
/// nodes of equal rank share a layer.
pub proof fn lemma_layers_follow_ranks(r: Seq<usize>, u: int, v: int)
    requires
        0 <= u < r.len(),
        0 <= v < r.len(),
    ensures
        r[u] < r[v] ==> layer_of(r, u) < layer_of(r, v),
        r[u] == r[v] ==> layer_of(r, u) == layer_of(r, v),
{
    if r[u] < r[v] {
        lemma_first_occurrence_exists(r, u);
        let f = choose|f: int| 0 <= f <= u && #[trigger] first_occurrence(r, f) && r[f] == r[u];
        lemma_distinct_below_monotone(r, r.len(), r[u] as int, r[v] as int, f);
    }
}

/// On a graph without cycles among its ranked edges, every ranked edge runs
/// into a lower layer: nodes with no incoming edge are in the top layer and
/// each edge pushes its target further down.
pub proof fn lemma_edges_descend_layers(n: nat, edges: Seq<(usize, usize)>, r: Seq<usize>)
    requires
        n <= usize::MAX,
        edges_within(n, edges),
        acyclic(n, edges),
        is_layering(n, edges, r),
    ensures
        forall|k: int| 0 <= k < edges.len() ==> layer_of(r, (#[trigger] edges[k]).1 as int) > layer_of(r, edges[k].0 as int),
        forall|v: int| 0 <= v < n && (forall|k: int| 0 <= k < edges.len() ==> (#[trigger] edges[k]).1 != v) ==> layer_of(r, v) == 0,
{
    lemma_acyclic_ranks(n, edges, r);
    assert forall|k: int| 0 <= k < edges.len() implies layer_of(r, (#[trigger] edges[k]).1 as int) > layer_of(r, edges[k].0 as int) by {
        assert(edges[k].0 < n && edges[k].1 < n);
        lemma_layers_follow_ranks(r, edges[k].0 as int, edges[k].1 as int);
    }
    assert forall|v: int| 0 <= v < n && (forall|k: int| 0 <= k < edges.len() ==> (#[trigger] edges[k]).1 != v) implies layer_of(r, v) == 0 by {
        assert(r[v] == 0);
        lemma_distinct_below_zero(r, r.len());
    }
}

proof fn lemma_distinct_below_zero(r: Seq<usize>, k: nat)
    ensures
        distinct_below(r, k, 0) == 0,
    decreases k,
{
    if k > 0 {
        lemma_distinct_below_zero(r, (k - 1) as nat);
    }
}


/// A string with backslashes and double quotes escaped by a backslash, for a
/// quoted DOT identifier.
pub open spec fn dot_escaped(s: Seq<char>) -> Seq<char>
    decreases s.len(),
{
    if s.len() == 0 {
        Seq::empty()
    } else {
        let c = s.last();
        dot_escaped(s.drop_last()) + if c == '\\' {
            seq!['\\', '\\']
        } else if c == '"' {
            seq!['\\', '"']
        } else {
            seq![c]
        }
    }
}

/// Escapes backslashes and double quotes for a quoted DOT identifier.
pub fn escape_dot(value: &str) -> (r: String)
    ensures
        r@ == dot_escaped(value@),
{
    let mut out = String::new();
    let n = value.unicode_len();
    let mut i: usize = 0;
    while i < n
        invariant
            n == value@.len(),
            i <= n,
            out@ == dot_escaped(value@.take(i as int)),
        decreases n - i,
    {
        let c = value.get_char(i);
        assert(value@.take(i + 1).drop_last() =~= value@.take(i as int));
        assert(value@.take(i + 1).last() == c);
        if c == '\\' {
            push_char(&mut out, '\\');
            push_char(&mut out, '\\');
        } else if c == '"' {
            push_char(&mut out, '\\');
            push_char(&mut out, '"');
        } else {
            push_char(&mut out, c);
        }
        i = i + 1;
        assert(out@ =~= dot_escaped(value@.take(i as int)));
    }
    assert(value@.take(n as int) =~= value@);
    out
}

/// The DOT statement of one node.
pub open spec fn dot_node_line<T>(node: Node<T>) -> Seq<char> {
    "  \""@ + dot_escaped(node.id@) + "\" [label=\""@ + dot_escaped(node.label@) + "\", shape=\""@
        + kind_dot_name(shape_kind(node.shape)) + "\"];\n"@
}

/// The DOT statement of one edge, labelled with its id.
pub open spec fn dot_edge_line<U>(edge: Edge<U>) -> Seq<char> {
    "  \""@ + dot_escaped(edge.from@) + "\" -> \""@ + dot_escaped(edge.to@) + "\" [label=\""@
        + dot_escaped(edge.id@) + "\"];\n"@
}

pub open spec fn dot_node_lines<T>(nodes: Seq<Node<T>>) -> Seq<char>
    decreases nodes.len(),
{
    if nodes.len() == 0 {
        Seq::empty()
    } else {
        dot_node_lines(nodes.drop_last()) + dot_node_line(nodes.last())
    }
}

pub open spec fn dot_edge_lines<U>(edges: Seq<Edge<U>>) -> Seq<char>
    decreases edges.len(),
{
    if edges.len() == 0 {
        Seq::empty()
    } else {
        dot_edge_lines(edges.drop_last()) + dot_edge_line(edges.last())
    }
}

/// The length of the statements of the first `k` edges.
pub open spec fn edge_statements_len<U>(edges: Seq<Edge<U>>, k: int) -> nat
    decreases k,
{
    if k <= 0 {
        0
    } else {
        edge_statements_len(edges, k - 1) + dot_edge_line(edges[k - 1]).len()
    }
}

proof fn lemma_edge_statements_len_prefix<U>(edges: Seq<Edge<U>>, m: int, k: int)
    requires
        0 <= k <= m <= edges.len(),
    ensures
        edge_statements_len(edges.take(m), k) == edge_statements_len(edges, k),
    decreases k,
{
    if k > 0 {
        lemma_edge_statements_len_prefix(edges, m, k - 1);
        assert(edges.take(m)[k - 1] == edges[k - 1]);
    }
}

proof fn lemma_edge_statements_len_mono<U>(edges: Seq<Edge<U>>, j: int, k: int)
    requires
        0 <= j <= k,
    ensures
        edge_statements_len(edges, j) <= edge_statements_len(edges, k),
    decreases k,
{
    if j < k {
        lemma_edge_statements_len_mono(edges, j, k - 1);
    }
}

/// The edge part of a DOT text holds one statement per edge, in edge
/// order: statement `k` is the text of edge `k`, whatever its flags.
#[verifier::spinoff_prover]
#[verifier::rlimit(40)]
pub proof fn lemma_dot_edge_statements<U>(edges: Seq<Edge<U>>)
    ensures
        dot_edge_lines(edges).len() == edge_statements_len(edges, edges.len() as int),
        forall|k: int|
            0 <= k < edges.len() ==> dot_edge_lines(edges).subrange(
                edge_statements_len(edges, k) as int,
                edge_statements_len(edges, k + 1) as int,
            ) == dot_edge_line(#[trigger] edges[k]),
    decreases edges.len(),
{
    if edges.len() > 0 {
        let n = edges.len() as int;
        let init = edges.drop_last();
        lemma_dot_edge_statements(init);
        assert(init =~= edges.take(n - 1));
        let a = dot_edge_lines(init);
        let b = dot_edge_line(edges.last());
        assert(dot_edge_lines(edges) == a + b);
        assert forall|k: int| 0 <= k <= n - 1 implies #[trigger] edge_statements_len(init, k) == edge_statements_len(edges, k) by {
            lemma_edge_statements_len_prefix(edges, n - 1, k);
        }
        assert(edge_statements_len(init, n - 1) == edge_statements_len(edges, n - 1));
        assert forall|k: int| 0 <= k < n implies dot_edge_lines(edges).subrange(
            edge_statements_len(edges, k) as int,
            edge_statements_len(edges, k + 1) as int,
        ) == dot_edge_line(#[trigger] edges[k]) by {
            if k < n - 1 {
                assert(edge_statements_len(init, k) == edge_statements_len(edges, k));
                assert(edge_statements_len(init, k + 1) == edge_statements_len(edges, k + 1));
                assert(init[k] == edges[k]);
                lemma_edge_statements_len_mono(edges, k + 1, n - 1);
                assert(a.subrange(edge_statements_len(init, k) as int, edge_statements_len(init, k + 1) as int)
                    == dot_edge_line(init[k]));
                assert((a + b).subrange(edge_statements_len(edges, k) as int, edge_statements_len(edges, k + 1) as int)
                    =~= a.subrange(edge_statements_len(edges, k) as int, edge_statements_len(edges, k + 1) as int));
            } else {
                assert(edges[k] == edges.last());
                assert((a + b).subrange(a.len() as int, (a.len() + b.len()) as int) =~= b);
            }
        }
    }
}

/// The DOT text of a graph: a top-to-bottom digraph with one statement per
/// node and then one per edge, in insertion order.
pub open spec fn dot_text<T, U>(nodes: Seq<Node<T>>, edges: Seq<Edge<U>>) -> Seq<char> {
    "digraph G {\n  rankdir=TB;\n"@ + dot_node_lines(nodes) + dot_edge_lines(edges) + "}\n"@
}

/// Where the edge statements of a DOT text start: after the header and the
/// node statements.
pub open spec fn dot_edges_start<T>(nodes: Seq<Node<T>>) -> nat {
    ("digraph G {\n  rankdir=TB;\n"@ + dot_node_lines(nodes)).len()
}

/// A DOT text holds, after its node statements, exactly one statement per
/// edge in edge order, and then the closing line.
#[verifier::spinoff_prover]
#[verifier::rlimit(40)]
pub proof fn lemma_dot_text_edges<T, U>(nodes: Seq<Node<T>>, edges: Seq<Edge<U>>)
    ensures
        dot_text(nodes, edges).len() == dot_edges_start(nodes) + edge_statements_len(edges, edges.len() as int)
            + "}\n"@.len(),
        forall|k: int|
            0 <= k < edges.len() ==> dot_text(nodes, edges).subrange(
                (dot_edges_start(nodes) + edge_statements_len(edges, k)) as int,
                (dot_edges_start(nodes) + edge_statements_len(edges, k + 1)) as int,
            ) == dot_edge_line(#[trigger] edges[k]),
{
    lemma_dot_edge_statements(edges);
    let h = "digraph G {\n  rankdir=TB;\n"@ + dot_node_lines(nodes);
    let e = dot_edge_lines(edges);
    let c = "}\n"@;
    assert(dot_text(nodes, edges) =~= h + e + c);
    assert forall|k: int| 0 <= k < edges.len() implies dot_text(nodes, edges).subrange(
        (dot_edges_start(nodes) + edge_statements_len(edges, k)) as int,
        (dot_edges_start(nodes) + edge_statements_len(edges, k + 1)) as int,
    ) == dot_edge_line(#[trigger] edges[k]) by {
        lemma_edge_statements_len_mono(edges, k, k + 1);
        lemma_edge_statements_len_mono(edges, k + 1, edges.len() as int);
        let lo = edge_statements_len(edges, k) as int;
        let hi = edge_statements_len(edges, k + 1) as int;
        assert((h + e + c).subrange(h.len() + lo, h.len() + hi) =~= e.subrange(lo, hi));
    }
}

/// The DOT text of `graph`, written statement by statement.
#[verifier::spinoff_prover]
#[verifier::rlimit(40)]
fn write_dot<NodeTool, EdgeTool>(graph: &Graph<NodeTool, EdgeTool>) -> (dot: String)
    requires
        graph.wf(),
    ensures
        dot@ == dot_text(graph@.nodes, graph@.edges),
{
    let nodes = graph.nodes();
    let edges = graph.edges();
    let ghost ns = graph@.nodes;
    let ghost es = graph@.edges;
    let mut dot = String::from_str("digraph G {\n  rankdir=TB;\n");
    let mut i: usize = 0;
    while i < nodes.len()
        invariant
            nodes@.len() == ns.len(),
            forall|j: int| 0 <= j < ns.len() ==> *nodes@[j] == ns[j],
            i <= ns.len(),
            dot@ == "digraph G {\n  rankdir=TB;\n"@ + dot_node_lines(ns.take(i as int)),
        decreases ns.len() - i,
    {
        let node = nodes[i];
        let id = escape_dot(node.id.as_str());
        let label = escape_dot(node.label.as_str());
        dot.append("  \"");
        dot.append(id.as_str());
        dot.append("\" [label=\"");
        dot.append(label.as_str());
        dot.append("\", shape=\"");
        dot.append(node.shape.dot_name());
        dot.append("\"];\n");
        assert(ns.take(i + 1).drop_last() =~= ns.take(i as int));
        assert(ns.take(i + 1).last() == ns[i as int]);
        i = i + 1;
        assert(dot@ =~= "digraph G {\n  rankdir=TB;\n"@ + dot_node_lines(ns.take(i as int)));
    }
    assert(ns.take(ns.len() as int) =~= ns);
    let mut k: usize = 0;
    while k < edges.len()
        invariant
            edges@.len() == es.len(),
            forall|j: int| 0 <= j < es.len() ==> *edges@[j] == es[j],
            k <= es.len(),
            dot@ == "digraph G {\n  rankdir=TB;\n"@ + dot_node_lines(ns) + dot_edge_lines(es.take(k as int)),
        decreases es.len() - k,
    {
        let edge = edges[k];
        let from = escape_dot(edge.from.as_str());
        let to = escape_dot(edge.to.as_str());
        let id = escape_dot(edge.id.as_str());
        dot.append("  \"");
        dot.append(from.as_str());
        dot.append("\" -> \"");
        dot.append(to.as_str());
        dot.append("\" [label=\"");
        dot.append(id.as_str());
        dot.append("\"];\n");
        assert(es.take(k + 1).drop_last() =~= es.take(k as int));
        assert(es.take(k + 1).last() == es[k as int]);
        k = k + 1;
        assert(dot@ =~= "digraph G {\n  rankdir=TB;\n"@ + dot_node_lines(ns) + dot_edge_lines(es.take(k as int)));
    }
    assert(es.take(es.len() as int) =~= es);
    dot.append("}\n");
    dot
}

/// Exports a graph as DOT text.
pub fn graph_to_dot<NodeTool, EdgeTool>(graph: &Graph<NodeTool, EdgeTool>) -> (dot: String)
    requires
        graph.wf(),
    ensures
        dot@ == dot_text(graph@.nodes, graph@.edges),
        dot@.len() == dot_edges_start(graph@.nodes) + edge_statements_len(graph@.edges, graph@.edges.len() as int)
            + "}\n"@.len(),
        forall|k: int|
            0 <= k < graph@.edges.len() ==> dot@.subrange(
                (dot_edges_start(graph@.nodes) + edge_statements_len(graph@.edges, k)) as int,
                (dot_edges_start(graph@.nodes) + edge_statements_len(graph@.edges, k + 1)) as int,
            ) == dot_edge_line(#[trigger] graph@.edges[k]),
{
    let dot = write_dot(graph);
    proof {
        lemma_dot_text_edges(graph@.nodes, graph@.edges);
    }
    dot
}

} // verus!
