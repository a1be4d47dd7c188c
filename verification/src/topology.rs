//! The graph's topology, held in a `petgraph` stable graph whose node and
//! edge weights are the positions of the library's nodes and edges.

use vstd::prelude::*;

use petgraph::graph::{DefaultIx, EdgeIndex, NodeIndex};
use petgraph::stable_graph::StableGraph;
use petgraph::Directed;

verus! {

/// `petgraph`'s marker for directed graphs.
#[verifier::external_type_specification]
#[verifier::external_body]
pub struct ExDirected(Directed);

/// `petgraph`'s stable graph.
#[verifier::external_type_specification]
#[verifier::external_body]
#[verifier::reject_recursive_types(N)]
#[verifier::reject_recursive_types(E)]
#[verifier::reject_recursive_types(Ty)]
#[verifier::reject_recursive_types(Ix)]
pub struct ExStableGraph<N, E, Ty = Directed, Ix = DefaultIx>(StableGraph<N, E, Ty, Ix>);

/// The node slots of a stable graph, by node index: the weight of each node,
/// or `None` for a slot left vacant by a removal.
pub uninterp spec fn node_slots(g: StableGraph<usize, usize>) -> Seq<Option<usize>>;

/// The edge slots of a stable graph, by edge index: the source index, the
/// target index and the weight of each edge, or `None` for a vacant slot.
pub uninterp spec fn edge_slots(g: StableGraph<usize, usize>) -> Seq<Option<(usize, usize, usize)>>;

/// The weights of the occupied slots, in slot order.
pub open spec fn occupied<T>(slots: Seq<Option<T>>) -> Seq<T>
    decreases slots.len(),
{
    if slots.len() == 0 {
        Seq::empty()
    } else {
        let rest = occupied(slots.drop_last());
        match slots.last() {
            Some(w) => rest.push(w),
            None => rest,
        }
    }
}

/// Whether no slot is vacant.
pub open spec fn no_vacancy<T>(slots: Seq<Option<T>>) -> bool {
    forall|i: int| 0 <= i < slots.len() ==> (#[trigger] slots[i]) is Some
}

/// Whether `after` is `before` with weight `w` put in slot `r`: appended
/// when no slot is vacant, otherwise in a slot that was vacant.
pub open spec fn slot_filled<T>(before: Seq<Option<T>>, after: Seq<Option<T>>, r: usize, w: T) -> bool {
    if no_vacancy(before) {
        r == before.len() && after == before.push(Some(w))
    } else {
        r < before.len() && before[r as int] is None && after == before.update(r as int, Some(w))
    }
}

/// An empty stable graph.
///
/// Trusted: calls `StableGraph::new`, which creates a graph with no node and
/// no edge slots.
#[verifier::external_body]
pub(crate) fn topology_new() -> (g: StableGraph<usize, usize>)
    ensures
        node_slots(g) == Seq::<Option<usize>>::empty(),
        edge_slots(g) == Seq::<Option<(usize, usize, usize)>>::empty(),
{
    StableGraph::new()
}

/// Adds a node of weight `w` and returns its index.
///
/// Trusted: calls `StableGraph::add_node`, which fills the vacant slot at the
/// head of its free list if there is one and otherwise appends a slot. It
/// panics when it would append the slot whose index is `u32::MAX`, which the
/// `requires` leaves out. Which vacant slot is filled is left unsaid.
#[verifier::external_body]
pub(crate) fn topology_add_node(g: &mut StableGraph<usize, usize>, w: usize) -> (r: usize)
    requires
        no_vacancy(node_slots(*old(g))) ==> node_slots(*old(g)).len() < u32::MAX,
    ensures
        slot_filled(node_slots(*old(g)), node_slots(*final(g)), r, w),
        edge_slots(*final(g)) == edge_slots(*old(g)),
{
    g.add_node(w).index()
}

/// Adds an edge from node `a` to node `b` with weight `w` and returns its
/// index.
///
/// Trusted: calls `StableGraph::add_edge`, which fills the vacant edge slot at
/// the head of its free list if there is one and otherwise appends a slot. It
/// panics when `a` or `b` is not an occupied node slot, or when it would
/// append the edge slot whose index is `u32::MAX`; the `requires` leaves
/// those out. Which vacant slot is filled is left unsaid.
#[verifier::external_body]
pub(crate) fn topology_add_edge(g: &mut StableGraph<usize, usize>, a: usize, b: usize, w: usize) -> (r: usize)
    requires
        a < node_slots(*old(g)).len(),
        b < node_slots(*old(g)).len(),
        node_slots(*old(g)).len() <= u32::MAX,
        node_slots(*old(g))[a as int] is Some,
        node_slots(*old(g))[b as int] is Some,
        no_vacancy(edge_slots(*old(g))) ==> edge_slots(*old(g)).len() < u32::MAX,
    ensures
        slot_filled(edge_slots(*old(g)), edge_slots(*final(g)), r, (a, b, w)),
        node_slots(*final(g)) == node_slots(*old(g)),
{
    g.add_edge(NodeIndex::new(a), NodeIndex::new(b), w).index()
}

/// The weights of all nodes, in index order.
///
/// Trusted: calls `StableGraph::node_weights`, whose documentation says it
/// yields the weights of the nodes in the order of their indices.
#[verifier::external_body]
pub(crate) fn topology_node_weights(g: &StableGraph<usize, usize>) -> (v: Vec<usize>)
    ensures
        v@ == occupied(node_slots(*g)),
{
    g.node_weights().copied().collect()
}

/// The source and target indices of edge `e`, if its slot is occupied.
///
/// Trusted: calls `StableGraph::edge_endpoints`, which returns the endpoints
/// stored in an occupied edge slot and `None` for a vacant or missing one.
/// The index is narrowed to petgraph's 32-bit index type, so the `requires`
/// keeps it within that type.
#[verifier::external_body]
pub(crate) fn topology_edge_endpoints(g: &StableGraph<usize, usize>, e: usize) -> (r: Option<(usize, usize)>)
    requires
        e <= u32::MAX,
    ensures
        r == (if e < edge_slots(*g).len() {
            match edge_slots(*g)[e as int] {
                Some(t) => Some((t.0, t.1)),
                None => None,
            }
        } else {
            None
        }),
{
    g.edge_endpoints(EdgeIndex::new(e)).map(|(a, b)| (a.index(), b.index()))
}

} // verus!
