//! Layer ranks: the longest-path ranking that layered drawing uses.
//!
//! Nodes are processed in topological order (Kahn's algorithm). A node's rank
//! is one more than the largest rank of the sources of its incoming edges, or
//! 0 when it has none. Nodes that lie on a cycle, or below one, are never
//! processed; when there are such nodes every rank is raised to at least the
//! node's position.

use vstd::prelude::*;

use std::collections::VecDeque;

verus! {

/// Whether every edge joins two of the nodes `0..n`.
pub open spec fn edges_within(n: nat, edges: Seq<(usize, usize)>) -> bool {
    forall|k: int| 0 <= k < edges.len() ==> (#[trigger] edges[k]).0 < n && edges[k].1 < n
}

/// The number of edges into `v` whose source is not in `done`.
pub open spec fn pending_into(edges: Seq<(usize, usize)>, v: int, done: Seq<usize>) -> nat
    decreases edges.len(),
{
    if edges.len() == 0 {
        0
    } else {
        pending_into(edges.drop_last(), v, done) + if edges.last().1 == v && !done.contains(edges.last().0) {
            1nat
        } else {
            0nat
        }
    }
}

/// One more than the largest rank among the sources in `done` of the edges
/// into `v`, or 0 when there is no such edge.
pub open spec fn rank_bound(edges: Seq<(usize, usize)>, v: int, done: Seq<usize>, ranks: Seq<usize>) -> int
    decreases edges.len(),
{
    if edges.len() == 0 {
        0
    } else {
        let m = rank_bound(edges.drop_last(), v, done, ranks);
        let e = edges.last();
        if e.1 == v && done.contains(e.0) && ranks[e.0 as int] + 1 > m {
            ranks[e.0 as int] + 1
        } else {
            m
        }
    }
}

/// The targets of the edges out of `a`, in edge order.
pub open spec fn targets_from(edges: Seq<(usize, usize)>, a: int) -> Seq<usize>
    decreases edges.len(),
{
    if edges.len() == 0 {
        Seq::empty()
    } else {
        let t = targets_from(edges.drop_last(), a);
        if edges.last().0 == a {
            t.push(edges.last().1)
        } else {
            t
        }
    }
}

/// The number of times `v` occurs in `s`.
pub open spec fn occurrences(s: Seq<usize>, v: int) -> nat
    decreases s.len(),
{
    if s.len() == 0 {
        0
    } else {
        occurrences(s.drop_last(), v) + if s.last() == v {
            1nat
        } else {
            0nat
        }
    }
}

/// Whether `order` lists distinct nodes of `0..n`, each after the sources of
/// all edges into it.
pub open spec fn settled_order(n: nat, edges: Seq<(usize, usize)>, order: Seq<usize>) -> bool {
    &&& order.no_duplicates()
    &&& forall|i: int| 0 <= i < order.len() ==> #[trigger] order[i] < n
    &&& forall|i: int, k: int|
        0 <= i < order.len() && 0 <= k < edges.len() && (#[trigger] edges[k]).1 == #[trigger] order[i]
            ==> order.take(i).contains(edges[k].0)
}

/// Whether every node of `0..n` missing from `order` has an edge into it
/// from a node missing from `order`: no further node can be settled.
pub open spec fn stuck(n: nat, edges: Seq<(usize, usize)>, order: Seq<usize>) -> bool {
    forall|v: usize|
        v < n && !order.contains(v) ==> exists|k: int|
            0 <= k < edges.len() && (#[trigger] edges[k]).1 == v && !order.contains(edges[k].0)
}

/// Whether `base` gives each node one more than the largest rank of the
/// settled sources of its incoming edges.
pub open spec fn settled_ranks(n: nat, edges: Seq<(usize, usize)>, order: Seq<usize>, base: Seq<usize>) -> bool {
    &&& base.len() == n
    &&& forall|v: int| 0 <= v < n ==> #[trigger] base[v] == rank_bound(edges, v, order, base)
}

/// The ranks drawn from settled ranks: unchanged when every node is settled,
/// otherwise each raised to at least the node's position.
pub open spec fn drawn_ranks(n: nat, all_settled: bool, base: Seq<usize>) -> Seq<usize> {
    if all_settled {
        base
    } else {
        Seq::new(n, |v: int| if base[v] >= v { base[v] } else { v as usize })
    }
}

/// Whether `base` are the ranks that some maximal settled order settles, and
/// `all_settled` whether that order holds every node.
pub open spec fn settles(n: nat, edges: Seq<(usize, usize)>, base: Seq<usize>, all_settled: bool) -> bool {
    exists|order: Seq<usize>|
        #![trigger settled_ranks(n, edges, order, base)]
        settled_order(n, edges, order) && stuck(n, edges, order) && settled_ranks(n, edges, order, base)
            && all_settled == (unsettled_count(order, n) == 0)
}

/// Whether `ranks` are the layer ranks of the graph on nodes `0..n` with
/// `edges`: some maximal settled order and the ranks it settles give them.
pub open spec fn is_layering(n: nat, edges: Seq<(usize, usize)>, ranks: Seq<usize>) -> bool {
    exists|order: Seq<usize>, base: Seq<usize>|
        #![trigger settled_ranks(n, edges, order, base)]
        settled_order(n, edges, order) && stuck(n, edges, order) && settled_ranks(n, edges, order, base)
            && ranks == drawn_ranks(n, unsettled_count(order, n) == 0, base)
}

/// The number of nodes of `0..k` missing from `order`.
pub open spec fn unsettled_count(order: Seq<usize>, k: nat) -> nat
    decreases k,
{
    if k == 0 {
        0
    } else {
        unsettled_count(order, (k - 1) as nat) + if order.contains((k - 1) as usize) {
            0nat
        } else {
            1nat
        }
    }
}

proof fn lemma_unsettled_push(order: Seq<usize>, a: usize, k: nat)
    requires
        !order.contains(a),
        k <= usize::MAX,
    ensures
        unsettled_count(order.push(a), k) + (if a < k { 1nat } else { 0nat }) == unsettled_count(order, k),
    decreases k,
{
    if k > 0 {
        lemma_unsettled_push(order, a, (k - 1) as nat);
        let x = (k - 1) as usize;
        assert(order.push(a).contains(x) <==> (order.contains(x) || x == a)) by {
            if order.push(a).contains(x) {
                let i = choose|i: int| 0 <= i < order.push(a).len() && order.push(a)[i] == x;
                if i < order.len() {
                    assert(order[i] == x);
                }
            }
            if order.contains(x) {
                let i = choose|i: int| 0 <= i < order.len() && order[i] == x;
                assert(order.push(a)[i] == x);
            }
            if x == a {
                assert(order.push(a)[order.len() as int] == x);
            }
        }
    }
}

proof fn lemma_unsettled_positive(order: Seq<usize>, v: usize, k: nat)
    requires
        v < k,
        !order.contains(v),
    ensures
        unsettled_count(order, k) >= 1,
    decreases k,
{
    if v < k - 1 {
        lemma_unsettled_positive(order, v, (k - 1) as nat);
    }
}

proof fn lemma_unsettled_empty(k: nat)
    ensures
        unsettled_count(Seq::<usize>::empty(), k) == k,
    decreases k,
{
    if k > 0 {
        lemma_unsettled_empty((k - 1) as nat);
    }
}

proof fn lemma_push_contains(s: Seq<usize>, a: usize, x: usize)
    ensures
        s.push(a).contains(x) <==> (s.contains(x) || x == a),
{
    if s.push(a).contains(x) {
        let i = choose|i: int| 0 <= i < s.push(a).len() && s.push(a)[i] == x;
        if i < s.len() {
            assert(s[i] == x);
        }
    }
    if s.contains(x) {
        let i = choose|i: int| 0 <= i < s.len() && s[i] == x;
        assert(s.push(a)[i] == x);
    }
    if x == a {
        assert(s.push(a)[s.len() as int] == x);
    }
}

proof fn lemma_pending_push(edges: Seq<(usize, usize)>, v: int, done: Seq<usize>, a: usize)
    requires
        !done.contains(a),
    ensures
        pending_into(edges, v, done.push(a)) + occurrences(targets_from(edges, a as int), v) == pending_into(
            edges,
            v,
            done,
        ),
    decreases edges.len(),
{
    if edges.len() > 0 {
        lemma_pending_push(edges.drop_last(), v, done, a);
        lemma_push_contains(done, a, edges.last().0);
        let t = targets_from(edges.drop_last(), a as int);
        if edges.last().0 == a {
            assert(t.push(edges.last().1).drop_last() =~= t);
        }
    }
}

proof fn lemma_rank_bound_push(edges: Seq<(usize, usize)>, v: int, done: Seq<usize>, a: usize, ranks: Seq<usize>)
    requires
        !done.contains(a),
        0 <= v <= usize::MAX,
    ensures
        rank_bound(edges, v, done.push(a), ranks) == (if targets_from(edges, a as int).contains(v as usize) && v >= 0
            && ranks[a as int] + 1 > rank_bound(edges, v, done, ranks) {
            ranks[a as int] + 1
        } else {
            rank_bound(edges, v, done, ranks)
        }),
    decreases edges.len(),
{
    if edges.len() > 0 {
        let rest = edges.drop_last();
        lemma_rank_bound_push(rest, v, done, a, ranks);
        lemma_push_contains(done, a, edges.last().0);
        let t = targets_from(rest, a as int);
        if edges.last().0 == a {
            lemma_push_contains(t, edges.last().1, v as usize);
        }
    }
}

proof fn lemma_rank_bound_frame(edges: Seq<(usize, usize)>, v: int, done: Seq<usize>, r1: Seq<usize>, r2: Seq<usize>)
    requires
        forall|k: int| 0 <= k < edges.len() && (#[trigger] edges[k]).1 == v && done.contains(edges[k].0) ==> r1[edges[k].0 as int]
            == r2[edges[k].0 as int],
    ensures
        rank_bound(edges, v, done, r1) == rank_bound(edges, v, done, r2),
    decreases edges.len(),
{
    if edges.len() > 0 {
        let rest = edges.drop_last();
        assert forall|k: int| 0 <= k < rest.len() && (#[trigger] rest[k]).1 == v && done.contains(rest[k].0) implies r1[rest[k].0 as int]
            == r2[rest[k].0 as int] by {
            assert(rest[k] == edges[k]);
        }
        lemma_rank_bound_frame(rest, v, done, r1, r2);
        assert(edges.last() == edges[edges.len() - 1]);
    }
}

proof fn lemma_pending_zero(edges: Seq<(usize, usize)>, v: int, done: Seq<usize>)
    ensures
        pending_into(edges, v, done) == 0 <==> forall|k: int|
            0 <= k < edges.len() && (#[trigger] edges[k]).1 == v ==> done.contains(edges[k].0),
    decreases edges.len(),
{
    if edges.len() > 0 {
        let rest = edges.drop_last();
        lemma_pending_zero(rest, v, done);
        let last = edges.last();
        assert(last == edges[edges.len() - 1]);
        let all_edges = forall|k: int| 0 <= k < edges.len() && (#[trigger] edges[k]).1 == v ==> done.contains(edges[k].0);
        let all_rest = forall|k: int| 0 <= k < rest.len() && (#[trigger] rest[k]).1 == v ==> done.contains(rest[k].0);
        if all_edges {
            assert forall|k: int| 0 <= k < rest.len() && (#[trigger] rest[k]).1 == v implies done.contains(rest[k].0) by {
                assert(rest[k] == edges[k]);
            }
        }
        if all_rest && (last.1 == v ==> done.contains(last.0)) {
            assert forall|k: int| 0 <= k < edges.len() && (#[trigger] edges[k]).1 == v implies done.contains(edges[k].0) by {
                if k < rest.len() {
                    assert(rest[k] == edges[k]);
                }
            }
        }
    }
}

proof fn lemma_pending_le(edges: Seq<(usize, usize)>, v: int, done: Seq<usize>)
    ensures
        pending_into(edges, v, done) <= edges.len(),
    decreases edges.len(),
{
    if edges.len() > 0 {
        lemma_pending_le(edges.drop_last(), v, done);
    }
}

/// Whether `edges` has an edge from `a` to `b`.
pub open spec fn has_edge(edges: Seq<(usize, usize)>, a: int, b: int) -> bool {
    exists|k: int| 0 <= k < edges.len() && (#[trigger] edges[k]).0 == a && edges[k].1 == b
}

proof fn lemma_targets_from(edges: Seq<(usize, usize)>, a: int)
    ensures
        forall|j: int| 0 <= j < targets_from(edges, a).len() ==> has_edge(edges, a, #[trigger] targets_from(edges, a)[j] as int),
    decreases edges.len(),
{
    if edges.len() > 0 {
        let rest = edges.drop_last();
        lemma_targets_from(rest, a);
        let t = targets_from(edges, a);
        let tr = targets_from(rest, a);
        assert forall|j: int| 0 <= j < t.len() implies has_edge(edges, a, #[trigger] t[j] as int) by {
            if j < tr.len() {
                assert(has_edge(rest, a, tr[j] as int));
                let k = choose|k: int| 0 <= k < rest.len() && (#[trigger] rest[k]).0 == a && rest[k].1 == tr[j];
                assert(edges[k] == rest[k]);
                assert(t[j] == tr[j]);
            } else {
                let k = edges.len() - 1;
                assert(edges[k] == edges.last());
            }
        }
    }
}

pub(crate) proof fn lemma_occurrences_take(s: Seq<usize>, j: int, v: int)
    requires
        0 <= j < s.len(),
    ensures
        occurrences(s.take(j + 1), v) == occurrences(s.take(j), v) + if s[j] == v {
            1nat
        } else {
            0nat
        },
{
    assert(s.take(j + 1).drop_last() =~= s.take(j));
}

pub(crate) proof fn lemma_occurrences_positive(s: Seq<usize>, j: int)
    requires
        0 <= j < s.len(),
    ensures
        occurrences(s, s[j] as int) >= occurrences(s.take(j), s[j] as int) + 1,
    decreases s.len(),
{
    if j < s.len() - 1 {
        lemma_occurrences_positive(s.drop_last(), j);
        assert(s.drop_last().take(j) =~= s.take(j));
    } else {
        assert(s.drop_last() =~= s.take(j));
    }
}

pub(crate) proof fn lemma_contains_take(s: Seq<usize>, j: int, v: usize)
    requires
        0 <= j < s.len(),
    ensures
        s.take(j + 1).contains(v) <==> (s.take(j).contains(v) || s[j] == v),
{
    assert(s.take(j + 1) =~= s.take(j).push(s[j]));
    lemma_push_contains(s.take(j), s[j], v);
}

/// Whether the graph on nodes `0..n` with `edges` has no cycle: some order
/// of all of its nodes lists each node after the sources of all edges into
/// it.
pub open spec fn acyclic(n: nat, edges: Seq<(usize, usize)>) -> bool {
    exists|order: Seq<usize>|
        #![trigger settled_order(n, edges, order)]
        settled_order(n, edges, order) && forall|v: usize| v < n ==> #[trigger] order.contains(v)
}

proof fn lemma_settled_prefix_in_stuck(n: nat, edges: Seq<(usize, usize)>, t: Seq<usize>, p: Seq<usize>, j: int)
    requires
        settled_order(n, edges, t),
        stuck(n, edges, p),
        0 <= j <= t.len(),
    ensures
        forall|i: int| 0 <= i < j ==> p.contains(#[trigger] t[i]),
    decreases j,
{
    if j > 0 {
        lemma_settled_prefix_in_stuck(n, edges, t, p, j - 1);
        let v = t[j - 1];
        if !p.contains(v) {
            assert(v < n);
            let k = choose|k: int| 0 <= k < edges.len() && (#[trigger] edges[k]).1 == v && !p.contains(edges[k].0);
            assert(t.take(j - 1).contains(edges[k].0));
            let i = choose|i: int| 0 <= i < t.take(j - 1).len() && #[trigger] t.take(j - 1)[i] == edges[k].0;
            assert(t[i] == edges[k].0);
        }
    }
}

/// Every node that some settled order lists is settled by a maximal settled
/// order.
proof fn lemma_settled_in_stuck(n: nat, edges: Seq<(usize, usize)>, t: Seq<usize>, p: Seq<usize>)
    requires
        settled_order(n, edges, t),
        stuck(n, edges, p),
    ensures
        forall|x: usize| t.contains(x) ==> p.contains(x),
{
    lemma_settled_prefix_in_stuck(n, edges, t, p, t.len() as int);
    assert forall|x: usize| t.contains(x) implies p.contains(x) by {
        let i = choose|i: int| 0 <= i < t.len() && t[i] == x;
    }
}

proof fn lemma_unsettled_zero(order: Seq<usize>, k: nat)
    requires
        k <= usize::MAX + 1,
    ensures
        unsettled_count(order, k) == 0 <==> forall|v: usize| v < k ==> #[trigger] order.contains(v),
    decreases k,
{
    if k > 0 {
        lemma_unsettled_zero(order, (k - 1) as nat);
        if unsettled_count(order, k) == 0 {
            assert forall|v: usize| v < k implies #[trigger] order.contains(v) by {
                if v < k - 1 {
                } else {
                    assert(v == (k - 1) as usize);
                }
            }
        }
    }
}

proof fn lemma_unsettled_same(o1: Seq<usize>, o2: Seq<usize>, k: nat)
    requires
        forall|v: usize| o1.contains(v) <==> o2.contains(v),
    ensures
        unsettled_count(o1, k) == unsettled_count(o2, k),
    decreases k,
{
    if k > 0 {
        lemma_unsettled_same(o1, o2, (k - 1) as nat);
        assert(o1.contains((k - 1) as usize) <==> o2.contains((k - 1) as usize));
    }
}

proof fn lemma_rank_bound_same_done(edges: Seq<(usize, usize)>, v: int, d1: Seq<usize>, d2: Seq<usize>, ranks: Seq<usize>)
    requires
        forall|x: usize| d1.contains(x) <==> d2.contains(x),
    ensures
        rank_bound(edges, v, d1, ranks) == rank_bound(edges, v, d2, ranks),
    decreases edges.len(),
{
    if edges.len() > 0 {
        lemma_rank_bound_same_done(edges.drop_last(), v, d1, d2, ranks);
        assert(d1.contains(edges.last().0) <==> d2.contains(edges.last().0));
    }
}

proof fn lemma_rank_bound_above(edges: Seq<(usize, usize)>, v: int, done: Seq<usize>, ranks: Seq<usize>, k: int)
    requires
        0 <= k < edges.len(),
        edges[k].1 == v,
        done.contains(edges[k].0),
    ensures
        rank_bound(edges, v, done, ranks) >= ranks[edges[k].0 as int] + 1,
    decreases edges.len(),
{
    if k < edges.len() - 1 {
        assert(edges.drop_last()[k] == edges[k]);
        lemma_rank_bound_above(edges.drop_last(), v, done, ranks, k);
    } else {
        assert(edges.last() == edges[k]);
    }
}

proof fn lemma_rank_bound_none_in(edges: Seq<(usize, usize)>, v: int, done: Seq<usize>, ranks: Seq<usize>)
    requires
        forall|k: int| 0 <= k < edges.len() ==> (#[trigger] edges[k]).1 != v,
    ensures
        rank_bound(edges, v, done, ranks) == 0,
    decreases edges.len(),
{
    if edges.len() > 0 {
        let rest = edges.drop_last();
        assert forall|k: int| 0 <= k < rest.len() implies (#[trigger] rest[k]).1 != v by {
            assert(rest[k] == edges[k]);
        }
        lemma_rank_bound_none_in(rest, v, done, ranks);
        assert(edges.last() == edges[edges.len() - 1]);
    }
}

/// On a graph without cycles, layer ranks are longest-path ranks: each edge
/// puts its target at a greater rank than its source, a node without
/// incoming edges has rank 0, and any other node is one below the deepest
/// source of its incoming edges.
pub proof fn lemma_acyclic_ranks(n: nat, edges: Seq<(usize, usize)>, ranks: Seq<usize>)
    requires
        n <= usize::MAX,
        edges_within(n, edges),
        acyclic(n, edges),
        is_layering(n, edges, ranks),
    ensures
        ranks.len() == n,
        forall|k: int| 0 <= k < edges.len() ==> ranks[(#[trigger] edges[k]).1 as int] > ranks[edges[k].0 as int],
        forall|v: int| 0 <= v < n && (forall|k: int| 0 <= k < edges.len() ==> (#[trigger] edges[k]).1 != v) ==> ranks[v] == 0,
        forall|v: int| 0 <= v < n ==> #[trigger] ranks[v] == rank_bound(edges, v, Seq::new(n, |i: int| i as usize), ranks),
{
    let (order, base) = choose|order: Seq<usize>, base: Seq<usize>|
        settled_order(n, edges, order) && stuck(n, edges, order) && settled_ranks(n, edges, order, base) && ranks
            == drawn_ranks(n, unsettled_count(order, n) == 0, base);
    let t = choose|t: Seq<usize>| settled_order(n, edges, t) && forall|v: usize| v < n ==> #[trigger] t.contains(v);
    lemma_settled_in_stuck(n, edges, t, order);
    assert forall|v: usize| v < n implies #[trigger] order.contains(v) by {
        assert(t.contains(v));
    }
    lemma_unsettled_zero(order, n);
    assert(ranks == base);
    let all = Seq::new(n, |i: int| i as usize);
    assert forall|x: usize| order.contains(x) <==> all.contains(x) by {
        if order.contains(x) {
            let i = choose|i: int| 0 <= i < order.len() && order[i] == x;
            assert(x < n);
            assert(all[x as int] == x);
        }
        if all.contains(x) {
            let i = choose|i: int| 0 <= i < all.len() && all[i] == x;
        }
    }
    assert forall|k: int| 0 <= k < edges.len() implies ranks[(#[trigger] edges[k]).1 as int] > ranks[edges[k].0 as int] by {
        assert(edges[k].0 < n && edges[k].1 < n);
        assert(order.contains(edges[k].0));
        lemma_rank_bound_above(edges, edges[k].1 as int, order, base, k);
        assert(base[edges[k].1 as int] == rank_bound(edges, edges[k].1 as int, order, base));
    }
    assert forall|v: int| 0 <= v < n && (forall|k: int| 0 <= k < edges.len() ==> (#[trigger] edges[k]).1 != v) implies ranks[v] == 0 by {
        lemma_rank_bound_none_in(edges, v, order, base);
        assert(base[v] == rank_bound(edges, v, order, base));
    }
    assert forall|v: int| 0 <= v < n implies #[trigger] ranks[v] == rank_bound(edges, v, all, ranks) by {
        lemma_rank_bound_same_done(edges, v, order, all, base);
        assert(base[v] == rank_bound(edges, v, order, base));
    }
}

proof fn lemma_settled_bases_agree(
    n: nat,
    edges: Seq<(usize, usize)>,
    p1: Seq<usize>,
    b1: Seq<usize>,
    p2: Seq<usize>,
    b2: Seq<usize>,
    j: int,
)
    requires
        settled_order(n, edges, p1),
        settled_ranks(n, edges, p1, b1),
        settled_ranks(n, edges, p2, b2),
        forall|x: usize| p1.contains(x) <==> p2.contains(x),
        0 <= j <= p1.len(),
    ensures
        forall|i: int| 0 <= i < j ==> b1[#[trigger] p1[i] as int] == b2[p1[i] as int],
    decreases j,
{
    if j > 0 {
        lemma_settled_bases_agree(n, edges, p1, b1, p2, b2, j - 1);
        let v = p1[j - 1] as int;
        assert forall|k: int| 0 <= k < edges.len() && (#[trigger] edges[k]).1 == v && p1.contains(edges[k].0) implies b1[edges[k].0 as int]
            == b2[edges[k].0 as int] by {
            assert(edges[k].1 == p1[j - 1]);
            assert(p1.take(j - 1).contains(edges[k].0));
            let i = choose|i: int| 0 <= i < p1.take(j - 1).len() && #[trigger] p1.take(j - 1)[i] == edges[k].0;
            assert(p1[i] == edges[k].0);
        }
        lemma_rank_bound_frame(edges, v, p1, b1, b2);
        lemma_rank_bound_same_done(edges, v, p1, p2, b2);
        assert(b1[v] == rank_bound(edges, v, p1, b1));
        assert(b2[v] == rank_bound(edges, v, p2, b2));
    }
}

/// Layer ranks are determined by the graph: any two rankings that meet the
/// layering contract are equal.
pub proof fn lemma_layering_unique(n: nat, edges: Seq<(usize, usize)>, r1: Seq<usize>, r2: Seq<usize>)
    requires
        is_layering(n, edges, r1),
        is_layering(n, edges, r2),
    ensures
        r1 == r2,
{
    let (p1, b1) = choose|order: Seq<usize>, base: Seq<usize>|
        settled_order(n, edges, order) && stuck(n, edges, order) && settled_ranks(n, edges, order, base) && r1
            == drawn_ranks(n, unsettled_count(order, n) == 0, base);
    let (p2, b2) = choose|order: Seq<usize>, base: Seq<usize>|
        settled_order(n, edges, order) && stuck(n, edges, order) && settled_ranks(n, edges, order, base) && r2
            == drawn_ranks(n, unsettled_count(order, n) == 0, base);
    lemma_settled_in_stuck(n, edges, p1, p2);
    lemma_settled_in_stuck(n, edges, p2, p1);
    lemma_settled_bases_agree(n, edges, p1, b1, p2, b2, p1.len() as int);
    assert forall|v: int| 0 <= v < n implies #[trigger] b1[v] == b2[v] by {
        assert forall|k: int| 0 <= k < edges.len() && (#[trigger] edges[k]).1 == v && p1.contains(edges[k].0) implies b1[edges[k].0 as int]
            == b2[edges[k].0 as int] by {
            let i = choose|i: int| 0 <= i < p1.len() && p1[i] == edges[k].0;
        }
        lemma_rank_bound_frame(edges, v, p1, b1, b2);
        lemma_rank_bound_same_done(edges, v, p1, p2, b2);
        assert(b1[v] == rank_bound(edges, v, p1, b1));
        assert(b2[v] == rank_bound(edges, v, p2, b2));
    }
    assert(b1 =~= b2);
    lemma_unsettled_same(p1, p2, n);
}

/// Every node is settled exactly when the graph has no cycle; the settled
/// ranks are then the layer ranks.
pub proof fn lemma_settled_iff_acyclic(n: nat, edges: Seq<(usize, usize)>, base: Seq<usize>, all_settled: bool)
    requires
        n <= usize::MAX,
        settles(n, edges, base, all_settled),
    ensures
        all_settled <==> acyclic(n, edges),
        all_settled ==> is_layering(n, edges, base),
{
    let order = choose|order: Seq<usize>|
        settled_order(n, edges, order) && stuck(n, edges, order) && settled_ranks(n, edges, order, base)
            && all_settled == (unsettled_count(order, n) == 0);
    lemma_unsettled_zero(order, n);
    if all_settled {
        assert(settled_order(n, edges, order) && forall|v: usize| v < n ==> #[trigger] order.contains(v));
        assert(base == drawn_ranks(n, unsettled_count(order, n) == 0, base));
    }
    if acyclic(n, edges) {
        let t = choose|t: Seq<usize>| settled_order(n, edges, t) && forall|v: usize| v < n ==> #[trigger] t.contains(v);
        lemma_settled_in_stuck(n, edges, t, order);
        assert forall|v: usize| v < n implies #[trigger] order.contains(v) by {
            assert(t.contains(v));
        }
    }
}

/// The layer rank of each node of `0..n` under `edges` (see the module
/// documentation).
pub fn layer_ranks(n: usize, edges: &Vec<(usize, usize)>) -> (ranks: Vec<usize>)
    requires
        edges_within(n as nat, edges@),
    ensures
        is_layering(n as nat, edges@, ranks@),
{
    let (mut ranks, all_settled) = settle_ranks(n, edges);
    let ghost base = ranks@;
    let ghost order = choose|order: Seq<usize>|
        settled_order(n as nat, edges@, order) && stuck(n as nat, edges@, order) && settled_ranks(
            n as nat,
            edges@,
            order,
            base,
        ) && all_settled == (unsettled_count(order, n as nat) == 0);
    if !all_settled {
        let mut v: usize = 0;
        while v < n
            invariant
                v <= n,
                ranks@.len() == n,
                base.len() == n,
                forall|w: int| v <= w < n ==> #[trigger] ranks@[w] == base[w],
                forall|w: int| 0 <= w < v ==> #[trigger] ranks@[w] == (if base[w] >= w { base[w] } else { w as usize }),
            decreases n - v,
        {
            if ranks[v] < v {
                ranks.set(v, v);
            }
            v = v + 1;
        }
        assert(ranks@ =~= drawn_ranks(n as nat, false, base));
    }
    assert(settled_ranks(n as nat, edges@, order, base));
    ranks
}

/// The ranks that processing the nodes of `0..n` in topological order
/// settles, and whether every node was settled.
pub fn settle_ranks(n: usize, edges: &Vec<(usize, usize)>) -> (r: (Vec<usize>, bool))
    requires
        edges_within(n as nat, edges@),
    ensures
        settles(n as nat, edges@, r.0@, r.1),
        r.0@.len() == n,
        forall|v: int| 0 <= v < n ==> #[trigger] r.0@[v] < n,
{
    let ghost es = edges@;
    // Outgoing targets and in-degrees.
    let mut outgoing: Vec<Vec<usize>> = Vec::new();
    let mut indegree: Vec<usize> = Vec::new();
    let mut i: usize = 0;
    while i < n
        invariant
            i <= n,
            outgoing@.len() == i,
            indegree@.len() == i,
            forall|a: int| 0 <= a < i ==> (#[trigger] outgoing@[a])@ == Seq::<usize>::empty(),
            forall|a: int| 0 <= a < i ==> #[trigger] indegree@[a] == 0,
        decreases n - i,
    {
        outgoing.push(Vec::new());
        indegree.push(0);
        i = i + 1;
    }
    let mut k: usize = 0;
    while k < edges.len()
        invariant
            es == edges@,
            edges_within(n as nat, es),
            k <= es.len(),
            outgoing@.len() == n,
            indegree@.len() == n,
            forall|a: int| 0 <= a < n ==> (#[trigger] outgoing@[a])@ == targets_from(es.take(k as int), a),
            forall|v: int| 0 <= v < n ==> #[trigger] indegree@[v] == pending_into(es.take(k as int), v, Seq::empty()),
        decreases es.len() - k,
    {
        let (from, to) = edges[k];
        assert(es[k as int].0 < n && es[k as int].1 < n);
        assert(es.take(k + 1).drop_last() =~= es.take(k as int));
        assert(es.take(k + 1).last() == es[k as int]);
        proof {
            lemma_pending_le(es.take(k as int), to as int, Seq::empty());
        }
        outgoing[from].push(to);
        let d = indegree[to];
        indegree.set(to, d + 1);
        k = k + 1;
    }
    assert(es.take(es.len() as int) =~= es);
    // Nodes with no incoming edge start the queue.
    let mut ranks: Vec<usize> = Vec::new();
    let mut queue: VecDeque<usize> = VecDeque::new();
    let mut idx: usize = 0;
    while idx < n
        invariant
            idx <= n,
            indegree@.len() == n,
            ranks@.len() == idx,
            forall|v: int| 0 <= v < idx ==> #[trigger] ranks@[v] == 0,
            queue@.no_duplicates(),
            forall|j: int| 0 <= j < queue@.len() ==> #[trigger] queue@[j] < idx,
            forall|v: int| 0 <= v < idx ==> (#[trigger] indegree@[v] == 0 <==> queue@.contains(v as usize)),
        decreases n - idx,
    {
        ranks.push(0);
        if indegree[idx] == 0 {
            let ghost q0 = queue@;
            queue.push_back(idx);
            assert forall|v: int| 0 <= v < idx + 1 implies (#[trigger] indegree@[v] == 0 <==> queue@.contains(v as usize)) by {
                lemma_push_contains(q0, idx, v as usize);
            }
        } else {
            assert(!queue@.contains(idx)) by {
                if queue@.contains(idx) {
                    let j = choose|j: int| 0 <= j < queue@.len() && queue@[j] == idx;
                }
            }
        }
        idx = idx + 1;
    }
    // Process the queue in topological order.
    let ghost mut order: Seq<usize> = Seq::empty();
    proof {
        lemma_unsettled_empty(n as nat);
        assert forall|v: int| 0 <= v < n implies #[trigger] ranks@[v] == rank_bound(es, v, order, ranks@) by {
            lemma_rank_bound_zero(es, v, ranks@);
        }
    }
    let mut visited: usize = 0;
    loop
        invariant
            es == edges@,
            edges_within(n as nat, es),
            outgoing@.len() == n,
            indegree@.len() == n,
            ranks@.len() == n,
            forall|a: int| 0 <= a < n ==> (#[trigger] outgoing@[a])@ == targets_from(es, a),
            forall|v: int| 0 <= v < n ==> #[trigger] indegree@[v] == pending_into(es, v, order),
            settled_order(n as nat, es, order),
            visited == order.len(),
            order.len() + unsettled_count(order, n as nat) == n,
            queue@.no_duplicates(),
            forall|j: int| 0 <= j < queue@.len() ==> #[trigger] queue@[j] < n && !order.contains(queue@[j]),
            forall|v: int| 0 <= v < n ==> (#[trigger] indegree@[v] == 0 <==> (order.contains(v as usize)
                || queue@.contains(v as usize))),
            forall|v: int| 0 <= v < n ==> #[trigger] ranks@[v] == rank_bound(es, v, order, ranks@),
            forall|v: int| 0 <= v < n ==> #[trigger] ranks@[v] <= order.len(),
            forall|i: int| 0 <= i < order.len() ==> #[trigger] ranks@[order[i] as int] <= i,
        ensures
            queue@.len() == 0,
        decreases unsettled_count(order, n as nat),
    {
        let ghost q0 = queue@;
        let from = match queue.pop_front() {
            Some(x) => x,
            None => {
                break;
            },
        };
        assert(q0[0] == from);
        assert forall|j: int| 0 <= j < queue@.len() implies #[trigger] queue@[j] == q0[j + 1] by {}
        let ghost old_order = order;
        let ghost ranks0 = ranks@;
        assert(q0.contains(from));
        assert(!old_order.contains(from));
        assert(indegree@[from as int] == 0);
        proof {
            lemma_pending_zero(es, from as int, old_order);
            lemma_unsettled_positive(old_order, from, n as nat);
            lemma_unsettled_push(old_order, from, n as nat);
            order = old_order.push(from);
            lemma_targets_from(es, from as int);
            lemma_push_contains(old_order, from, from);
        }
        visited = visited + 1;
        let ghost t = targets_from(es, from as int);
        proof {
            assert forall|v: int| 0 <= v < n implies pending_into(es, v, order) + occurrences(t, v) == #[trigger] pending_into(
                es,
                v,
                old_order,
            ) by {
                lemma_pending_push(es, v, old_order, from);
            }
            assert forall|jj: int| 0 <= jj < queue@.len() implies #[trigger] queue@[jj] != from by {
                assert(q0[jj + 1] == queue@[jj]);
            }
            assert forall|v: int| 0 <= v < n implies (#[trigger] indegree@[v] == 0 <==> (order.contains(v as usize)
                || queue@.contains(v as usize))) by {
                lemma_push_contains(old_order, from, v as usize);
                if q0.contains(v as usize) {
                    let jj = choose|jj: int| 0 <= jj < q0.len() && q0[jj] == v as usize;
                    if jj > 0 {
                        assert(queue@[jj - 1] == v as usize);
                    }
                }
                if queue@.contains(v as usize) {
                    let jj = choose|jj: int| 0 <= jj < queue@.len() && queue@[jj] == v as usize;
                    assert(q0[jj + 1] == v as usize);
                }
            }
            assert forall|jj: int| 0 <= jj < queue@.len() implies #[trigger] queue@[jj] < n && !order.contains(queue@[jj]) by {
                assert(q0[jj + 1] == queue@[jj]);
                lemma_push_contains(old_order, from, queue@[jj]);
            }
        }
        // No target of `from` is settled: each has the pending edge from `from`.
        assert forall|j: int| 0 <= j < t.len() implies !order.contains(#[trigger] t[j]) by {
            assert(has_edge(es, from as int, t[j] as int));
            let k = choose|kk: int| 0 <= kk < es.len() && (#[trigger] es[kk]).0 == from && es[kk].1 == t[j];
            lemma_push_contains(old_order, from, t[j]);
            if old_order.contains(t[j]) {
                let i = choose|i: int| 0 <= i < old_order.len() && old_order[i] == t[j];
                assert(old_order.take(i).contains(from));
                let ii = choose|ii: int| 0 <= ii < old_order.take(i).len() && old_order.take(i)[ii] == from;
                assert(old_order[ii] == from);
            }
            if t[j] == from {
                assert(!old_order.contains(es[k].0));
            }
        }
        let rf = ranks[from];
        let targets = &outgoing[from];
        assert(targets@ == t);
        let mut j: usize = 0;
        while j < targets.len()
            invariant
                es == edges@,
                targets@ == t,
                t == targets_from(es, from as int),
                forall|jj: int| 0 <= jj < t.len() ==> #[trigger] t[jj] < n && !order.contains(t[jj]),
                from < n,
                order == old_order.push(from),
                !old_order.contains(from),
                order.len() <= n,
                indegree@.len() == n,
                ranks@.len() == n,
                ranks0.len() == n,
                rf == ranks0[from as int],
                rf < order.len(),
                j <= t.len(),
                forall|v: int| 0 <= v < n ==> #[trigger] indegree@[v] + occurrences(t.take(j as int), v) == pending_into(
                    es,
                    v,
                    old_order,
                ),
                forall|v: int| 0 <= v < n ==> pending_into(es, v, order) + occurrences(t, v) == #[trigger] pending_into(
                    es,
                    v,
                    old_order,
                ),
                forall|v: int| 0 <= v < n ==> #[trigger] ranks@[v] == (if t.take(j as int).contains(v as usize) && rf + 1
                    > ranks0[v] {
                    (rf + 1) as usize
                } else {
                    ranks0[v]
                }),
                forall|v: int| 0 <= v < n ==> #[trigger] ranks0[v] <= order.len(),
                forall|i: int| 0 <= i < order.len() ==> #[trigger] ranks0[order[i] as int] <= i,
                queue@.no_duplicates(),
                forall|jj: int| 0 <= jj < queue@.len() ==> #[trigger] queue@[jj] < n && !order.contains(queue@[jj]),
                forall|v: int| 0 <= v < n ==> (#[trigger] indegree@[v] == 0 <==> (order.contains(v as usize)
                    || queue@.contains(v as usize))),
            decreases t.len() - j,
        {
            let to = targets[j];
            proof {
                lemma_occurrences_take(t, j as int, to as int);
                lemma_occurrences_positive(t, j as int);
                assert forall|v: int| 0 <= v < n implies #[trigger] occurrences(t.take(j + 1), v) == occurrences(t.take(j as int), v)
                    + if t[j as int] == v { 1nat } else { 0nat } by {
                    lemma_occurrences_take(t, j as int, v);
                }
                assert forall|v: int| 0 <= v < n implies (#[trigger] t.take(j + 1).contains(v as usize)) <==> (t.take(j as int).contains(v as usize)
                    || t[j as int] == v) by {
                    lemma_contains_take(t, j as int, v as usize);
                }
            }
            let r_to = ranks[to];
            if r_to < rf + 1 {
                ranks.set(to, rf + 1);
            }
            let d = indegree[to];
            assert(d >= 1);
            indegree.set(to, d - 1);
            if d - 1 == 0 {
                let ghost qb = queue@;
                queue.push_back(to);
                proof {
                    assert(!qb.contains(to));
                    assert forall|v: int| 0 <= v < n implies (#[trigger] indegree@[v] == 0 <==> (order.contains(v as usize)
                        || queue@.contains(v as usize))) by {
                        lemma_push_contains(qb, to, v as usize);
                    }
                }
            }
            j = j + 1;
        }
        assert(t.take(t.len() as int) =~= t);
        proof {
            assert forall|v: int| 0 <= v < n implies #[trigger] ranks@[v] == rank_bound(es, v, order, ranks@) by {
                lemma_rank_bound_push(es, v, old_order, from, ranks0);
                assert forall|k: int| 0 <= k < es.len() && (#[trigger] es[k]).1 == v && order.contains(es[k].0) implies ranks0[es[k].0 as int]
                    == ranks@[es[k].0 as int] by {
                    let a = es[k].0;
                    if t.contains(a) {
                        let jj = choose|jj: int| 0 <= jj < t.len() && t[jj] == a;
                    }
                }
                lemma_rank_bound_frame(es, v, order, ranks0, ranks@);
                assert(ranks0[from as int] == ranks@[from as int]);
            }
            assert forall|i: int, k: int|
                0 <= i < order.len() && 0 <= k < es.len() && (#[trigger] es[k]).1 == #[trigger] order[i] implies order.take(i).contains(es[k].0) by {
                if i < old_order.len() {
                    assert(order[i] == old_order[i]);
                    assert(order.take(i) =~= old_order.take(i));
                } else {
                    assert(order.take(i) =~= old_order);
                }
            }
            assert forall|i: int| 0 <= i < order.len() implies #[trigger] order[i] < n by {
                if i < old_order.len() {
                    assert(order[i] == old_order[i]);
                }
            }
        }
    }
    // Every node not settled lies on or below a cycle.
    proof {
        let base = ranks@;
        assert forall|v: usize| v < n && !order.contains(v) implies exists|k: int|
            0 <= k < es.len() && (#[trigger] es[k]).1 == v && !order.contains(es[k].0) by {
            lemma_pending_zero(es, v as int, order);
            assert(indegree@[v as int] != 0);
        }
        assert(settled_ranks(n as nat, es, order, base));
    }
    proof {
        assert(settled_ranks(n as nat, es, order, ranks@));
        assert forall|v: int| 0 <= v < n implies #[trigger] ranks@[v] < n by {
            if order.contains(v as usize) {
                let i = choose|i: int| 0 <= i < order.len() && order[i] == v as usize;
                assert(ranks@[order[i] as int] <= i);
            } else {
                lemma_unsettled_positive(order, v as usize, n as nat);
            }
        }
    }
    (ranks, visited == n)
}

proof fn lemma_rank_bound_zero(edges: Seq<(usize, usize)>, v: int, ranks: Seq<usize>)
    ensures
        rank_bound(edges, v, Seq::empty(), ranks) == 0,
    decreases edges.len(),
{
    if edges.len() > 0 {
        lemma_rank_bound_zero(edges.drop_last(), v, ranks);
    }
}

} // verus!
