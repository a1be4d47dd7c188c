use dot_graph::layout_engine::dot::{
    escape_dot, graph_to_dot, hierarchical_ranks, layout_plan, EdgeDirection, EdgeRoute,
};
use dot_graph::layout_engine::rank::{layer_ranks, settle_ranks};
use dot_graph::shape::ShapeKind;
use dot_graph::{Edge, Graph, GraphEdgeKind, GraphNodeKind, GraphNodeShape, Node};

fn shaped(id: &str, label: &str, detail: &str, kind: GraphNodeKind, shape: &str) -> Node {
    Node::new(id, label, detail, kind)
        .with_shape(GraphNodeShape::default_for_name(shape).expect("known shape name"))
}

fn portfolio_graph() -> Graph {
    let nodes = vec![
        shaped("D", "ReadBin data", "input panel", GraphNodeKind::Input, "cylinder"),
        shaped("ProbabilitySpace", "Probability space", "moments", GraphNodeKind::State, "ellipse"),
        shaped("SecurityReturnProcesses", "Return processes", "state", GraphNodeKind::State, "oval"),
        shaped("Weights", "Decision weights", "allocator", GraphNodeKind::DecisionVariable, "diamond"),
        shaped("PortfolioExpectedReturn", "Expected return", "component", GraphNodeKind::PortfolioComponent, "box"),
        shaped("PortfolioVariance", "Variance", "risk", GraphNodeKind::PortfolioRiskComponent, "hexagon"),
        shaped("PortfolioSkewness", "Skewness", "asymmetry", GraphNodeKind::PortfolioAsymmetryComponent, "octagon"),
        shaped("Utility", "Utility", "objective", GraphNodeKind::Utility, "double_circle"),
    ];
    let pairs = [
        ("D", "ProbabilitySpace", GraphEdgeKind::Data),
        ("ProbabilitySpace", "SecurityReturnProcesses", GraphEdgeKind::Process),
        ("SecurityReturnProcesses", "Weights", GraphEdgeKind::Process),
        ("SecurityReturnProcesses", "PortfolioExpectedReturn", GraphEdgeKind::StateContribution),
        ("SecurityReturnProcesses", "PortfolioVariance", GraphEdgeKind::StateContribution),
        ("SecurityReturnProcesses", "PortfolioSkewness", GraphEdgeKind::StateContribution),
        ("Weights", "PortfolioExpectedReturn", GraphEdgeKind::DecisionContribution),
        ("Weights", "PortfolioVariance", GraphEdgeKind::DecisionContribution),
        ("Weights", "PortfolioSkewness", GraphEdgeKind::DecisionContribution),
        ("PortfolioExpectedReturn", "Utility", GraphEdgeKind::UtilityAggregation),
        ("PortfolioVariance", "Utility", GraphEdgeKind::UtilityAggregation),
        ("PortfolioSkewness", "Utility", GraphEdgeKind::UtilityAggregation),
    ];
    let edges = pairs
        .iter()
        .map(|(from, to, kind)| Edge::new(&format!("{}->{}", from, to), from, to, *kind))
        .collect::<Vec<_>>();
    Graph::try_from_parts(nodes, edges).expect("example edges resolve")
}

#[test]
fn ranks_follow_the_longest_chain() {
    let graph = portfolio_graph();
    assert_eq!(hierarchical_ranks(&graph), vec![0, 1, 2, 3, 4, 4, 4, 5]);
}

#[test]
fn layout_plan_fans_out_edges_from_weights() {
    let graph = portfolio_graph();
    let plan = layout_plan(&graph);
    assert_eq!(plan.layer_count, 6);
    assert_eq!(plan.nodes.len(), 8);
    let weights = &plan.nodes[3];
    assert_eq!((weights.rank, weights.layer, weights.slot, weights.layer_size), (3, 3, 0, 1));
    for (v, slot) in [(4usize, 0usize), (5, 1), (6, 2)] {
        let node = &plan.nodes[v];
        assert_eq!((node.rank, node.layer, node.slot, node.layer_size), (4, 4, slot, 3));
        assert_eq!(node.geometry.as_ref().map(|g| g.row), Some(4));
    }
    assert_eq!(plan.edges.len(), 12);
    let weight_edges: Vec<&EdgeRoute> = plan.edges.iter().filter(|e| e.from == 3).collect();
    assert_eq!(weight_edges.len(), 3);
    assert!(weight_edges.iter().all(|e| e.source_slot_count == 3));
    assert_eq!(
        weight_edges.iter().map(|e| (e.to, e.source_slot)).collect::<Vec<_>>(),
        vec![(4, 0), (5, 1), (6, 2)]
    );
    assert_eq!(
        *weight_edges[0],
        EdgeRoute {
            edge: 6,
            from: 3,
            to: 4,
            source_slot: 0,
            source_slot_count: 3,
            target_slot: 1,
            target_slot_count: 2,
            source_layer: 3,
            target_layer: 4,
            direction: EdgeDirection::Down { source_band: 3, target_band: 3 },
        }
    );
    let into_utility: Vec<&EdgeRoute> = plan.edges.iter().filter(|e| e.to == 7).collect();
    assert_eq!(
        into_utility.iter().map(|e| (e.target_slot, e.target_slot_count)).collect::<Vec<_>>(),
        vec![(0, 3), (1, 3), (2, 3)]
    );
}

#[test]
fn layout_plan_routes_edges_up_and_across() {
    // `b` loops on itself, so `a` and `b` are never settled and ranking falls
    // back to node positions: ranks are [1, 1, 2].
    let graph: Graph = Graph::try_from_parts(
        vec![
            Node::new("a", "A", "", GraphNodeKind::State),
            Node::new("b", "B", "", GraphNodeKind::State),
            Node::new("c", "C", "", GraphNodeKind::Input),
        ],
        vec![
            Edge::new("c-a", "c", "a", GraphEdgeKind::Data),
            Edge::new("b-b", "b", "b", GraphEdgeKind::Data),
            Edge::new("b-a", "b", "a", GraphEdgeKind::Data),
        ],
    )
    .expect("edges resolve");
    let plan = layout_plan(&graph);
    assert_eq!(plan.layer_count, 2);
    assert_eq!(plan.nodes.iter().map(|n| n.rank).collect::<Vec<_>>(), vec![1, 1, 2]);
    assert_eq!(plan.nodes.iter().map(|n| n.layer).collect::<Vec<_>>(), vec![0, 0, 1]);
    assert_eq!(plan.edges[0].direction, EdgeDirection::Up { source_band: 0, target_band: 0 });
    assert_eq!(plan.edges[1].direction, EdgeDirection::Across);
    assert_eq!(plan.edges[2].direction, EdgeDirection::Across);
}

#[test]
fn layout_plan_of_an_empty_graph_has_one_layer() {
    let graph: Graph = Graph::new();
    let plan = layout_plan(&graph);
    assert_eq!(plan.layer_count, 1);
    assert!(plan.nodes.is_empty());
    assert!(plan.edges.is_empty());
}

#[test]
fn layout_plan_skips_unresolved_edges_and_keeps_none_shapes_empty() {
    let mut graph: Graph = Graph::new();
    graph.add_node(Node::new("a", "A", "", GraphNodeKind::Input).with_shape(GraphNodeShape::NoneShape));
    let plan = layout_plan(&graph);
    assert_eq!(plan.nodes.len(), 1);
    assert!(plan.nodes[0].geometry.is_none());
    assert!(plan.edges.is_empty());
}

#[test]
fn cycles_fall_back_to_node_positions() {
    let graph: Graph = Graph::try_from_parts(
        vec![
            Node::new("a", "A", "", GraphNodeKind::Input),
            Node::new("b", "B", "", GraphNodeKind::State),
            Node::new("c", "C", "", GraphNodeKind::State),
        ],
        vec![
            Edge::new("a-b", "a", "b", GraphEdgeKind::Data),
            Edge::new("b-a", "b", "a", GraphEdgeKind::Data),
        ],
    )
    .expect("edges resolve");
    assert_eq!(hierarchical_ranks(&graph), vec![0, 1, 2]);
}

#[test]
fn inactive_edges_still_rank() {
    let graph: Graph = Graph::try_from_parts(
        vec![
            Node::new("a", "A", "", GraphNodeKind::Input),
            Node::new("b", "B", "", GraphNodeKind::State),
        ],
        vec![Edge::new("a-b", "a", "b", GraphEdgeKind::Data).with_active(false)],
    )
    .expect("edges resolve");
    assert_eq!(hierarchical_ranks(&graph), vec![0, 1]);
    let plan = layout_plan(&graph);
    assert_eq!(plan.nodes[1].layer, 1);
    assert_eq!(plan.edges[0].direction, EdgeDirection::Down { source_band: 0, target_band: 0 });
}

#[test]
fn ranking_joins_the_last_node_of_a_repeated_id() {
    let mut graph: Graph = Graph::new();
    graph.add_node(Node::new("a", "first", "", GraphNodeKind::Input));
    graph.add_node(Node::new("b", "B", "", GraphNodeKind::State));
    graph.add_node(Node::new("a", "second", "", GraphNodeKind::Input));
    assert!(graph.add_edge(Edge::new("b-a", "b", "a", GraphEdgeKind::Data)));
    assert_eq!(hierarchical_ranks(&graph), vec![0, 0, 1]);
    let plan = layout_plan(&graph);
    assert_eq!((plan.edges[0].from, plan.edges[0].to), (1, 0));
}

#[test]
fn settle_and_layer_ranks_on_plain_edges() {
    assert_eq!(settle_ranks(3, &vec![(0, 1), (1, 2), (0, 2)]), (vec![0, 1, 2], true));
    assert_eq!(layer_ranks(3, &vec![(0, 1), (1, 2), (0, 2)]), vec![0, 1, 2]);
    assert_eq!(settle_ranks(4, &vec![(0, 1), (1, 0), (2, 3)]), (vec![0, 0, 0, 1], false));
    assert_eq!(layer_ranks(4, &vec![(0, 1), (1, 0), (2, 3)]), vec![0, 1, 2, 3]);
    assert_eq!(layer_ranks(0, &vec![]), Vec::<usize>::new());
}

#[test]
fn acyclic_edges_point_to_lower_ranks() {
    let edges = vec![(3, 1), (1, 0), (3, 0), (2, 0)];
    let ranks = layer_ranks(4, &edges);
    assert_eq!(ranks, vec![2, 1, 0, 0]);
    for (a, b) in edges {
        assert!(ranks[b] > ranks[a]);
    }
}

#[test]
fn escape_dot_escapes_backslashes_and_quotes() {
    assert_eq!(escape_dot("plain"), "plain");
    assert_eq!(escape_dot("a\\b\"c"), "a\\\\b\\\"c");
    assert_eq!(escape_dot(""), "");
    assert_eq!(escape_dot("\"\""), "\\\"\\\"");
}

#[test]
fn graph_to_dot_lists_nodes_then_edges() {
    let graph: Graph = Graph::try_from_parts(
        vec![
            Node::new("data", "Data \"raw\"", "source", GraphNodeKind::Input),
            Node::new("utility", "Utility", "objective", GraphNodeKind::Utility)
                .with_shape(GraphNodeShape::default_for_kind(ShapeKind::MSquare)),
        ],
        vec![Edge::new("data_to_utility", "data", "utility", GraphEdgeKind::Process)],
    )
    .expect("edges resolve");
    assert_eq!(
        graph_to_dot(&graph),
        "digraph G {\n  rankdir=TB;\n  \"data\" [label=\"Data \\\"raw\\\"\", shape=\"cylinder\"];\n  \"utility\" [label=\"Utility\", shape=\"Msquare\"];\n  \"data\" -> \"utility\" [label=\"data_to_utility\"];\n}\n"
    );
    let empty: Graph = Graph::new();
    assert_eq!(graph_to_dot(&empty), "digraph G {\n  rankdir=TB;\n}\n");
}
