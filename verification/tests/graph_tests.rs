use dot_graph::graph::json_shape;
use dot_graph::shape::ShapeKind;
use dot_graph::{Edge, Graph, GraphBuildError, GraphEdgeKind, GraphJsonError, GraphNodeKind, Node};

fn two_node_graph() -> Graph {
    Graph::try_from_parts(
        vec![
            Node::new("data", "Data", "source", GraphNodeKind::Input),
            Node::new("utility", "Utility", "objective", GraphNodeKind::Utility),
        ],
        vec![Edge::new("data_to_utility", "data", "utility", GraphEdgeKind::Process)],
    )
    .expect("edge endpoints should exist")
}

#[test]
fn add_layer_connects_from_previous_layer() {
    let mut graph = Graph::new();

    graph
        .add_layer(
            vec![Node::new("A", "Input", "source", GraphNodeKind::Input)],
            GraphEdgeKind::Process,
        )
        .expect("first layer should build");
    graph
        .add_layer(
            vec![
                Node::new("B", "State B", "target", GraphNodeKind::State),
                Node::new("C", "State C", "target", GraphNodeKind::State),
            ],
            GraphEdgeKind::Process,
        )
        .expect("second layer should connect");

    assert_eq!(graph.layers().len(), 2);
    assert_eq!(graph.nodes().len(), 3);
    assert_eq!(graph.edges().len(), 2);
}

#[test]
fn add_layer_accepts_custom_tool_payloads() {
    let mut graph: Graph<String, String> = Graph::new();

    graph
        .add_layer_with_edges(
            vec![Node::new_with_tool(
                "A",
                "Input",
                "source",
                GraphNodeKind::Input,
                "node-tool-a".to_string(),
            )],
            |_from: &Node<String>, _to: &Node<String>| None,
        )
        .expect("first layer should build");
    graph
        .add_layer_with_edges(
            vec![Node::new_with_tool(
                "B",
                "State",
                "target",
                GraphNodeKind::State,
                "node-tool-b".to_string(),
            )],
            |from: &Node<String>, to: &Node<String>| {
                Some(Edge::new_with_tool(
                    &format!("{}->{}", from.id, to.id),
                    &from.id,
                    &to.id,
                    GraphEdgeKind::Process,
                    "edge-tool".to_string(),
                ))
            },
        )
        .expect("second layer should connect");

    assert_eq!(
        graph.edges().first().map(|edge| edge.tool.as_str()),
        Some("edge-tool")
    );
}

#[test]
fn add_layer_names_edges_after_their_ends_and_records_layers() {
    let mut graph = Graph::new();
    let first = graph
        .add_layer(vec![Node::new("A", "Input", "source", GraphNodeKind::Input)], GraphEdgeKind::Data)
        .expect("first layer should build");
    let second = graph
        .add_layer(
            vec![
                Node::new("B", "State B", "target", GraphNodeKind::State),
                Node::new("C", "State C", "target", GraphNodeKind::State),
            ],
            GraphEdgeKind::Data,
        )
        .expect("second layer should connect");
    assert_eq!(first, vec![0]);
    assert_eq!(second, vec![1, 2]);
    assert_eq!(graph.layers(), &vec![vec![0], vec![1, 2]]);
    let edges = graph.edges();
    assert_eq!(edges[0].id, "A->B");
    assert_eq!(edges[1].id, "A->C");
    assert_eq!(edges[0].from, "A");
    assert_eq!(edges[1].to, "C");
    assert_eq!(edges[0].kind, GraphEdgeKind::Data);
    assert!(edges[0].active);
    assert_eq!(graph.edge_endpoints(1), (0, 2));
}

#[test]
fn add_layer_with_edges_fails_on_a_missing_endpoint() {
    let mut graph: Graph = Graph::new();
    graph
        .add_layer_with_edges(
            vec![Node::new("A", "Input", "source", GraphNodeKind::Input)],
            |_from: &Node, _to: &Node| None,
        )
        .expect("first layer should build");
    let error = graph
        .add_layer_with_edges(
            vec![Node::new("B", "State", "target", GraphNodeKind::State)],
            |from: &Node, _to: &Node| Some(Edge::new("dangling", &from.id, "nowhere", GraphEdgeKind::Data)),
        )
        .expect_err("an edge to a missing node should be refused");
    assert_eq!(
        error,
        GraphBuildError::MissingEdgeEndpoint {
            edge_id: "dangling".to_string(),
            from: "A".to_string(),
            to: "nowhere".to_string(),
        }
    );
    assert_eq!(graph.layers().len(), 1);
    assert_eq!(graph.nodes().len(), 2);
    assert_eq!(graph.edges().len(), 0);
}

#[test]
fn try_from_parts_builds_the_graph_in_order() {
    let graph = two_node_graph();
    let nodes = graph.nodes();
    assert_eq!(nodes.len(), 2);
    assert_eq!(nodes[0].id, "data");
    assert_eq!(nodes[1].id, "utility");
    assert_eq!(graph.edges().len(), 1);
    assert_eq!(graph.edge_endpoints(0), (0, 1));
    assert!(graph.layers().is_empty());
}

#[test]
fn try_from_parts_reports_the_first_unresolved_edge() {
    let result: Result<Graph, GraphBuildError> = Graph::try_from_parts(
        vec![Node::new("data", "Data", "source", GraphNodeKind::Input)],
        vec![
            Edge::new("ok", "data", "data", GraphEdgeKind::Data),
            Edge::new("bad", "data", "missing", GraphEdgeKind::Process),
            Edge::new("worse", "gone", "missing", GraphEdgeKind::Process),
        ],
    );
    assert_eq!(
        result.err(),
        Some(GraphBuildError::MissingEdgeEndpoint {
            edge_id: "bad".to_string(),
            from: "data".to_string(),
            to: "missing".to_string(),
        })
    );
}

#[test]
fn from_parts_matches_try_from_parts() {
    let graph: Graph = Graph::from_parts(
        vec![Node::new("a", "A", "", GraphNodeKind::State)],
        vec![Edge::new("loop", "a", "a", GraphEdgeKind::Process)],
    );
    assert_eq!(graph.nodes().len(), 1);
    assert_eq!(graph.edge_endpoints(0), (0, 0));
}

#[test]
fn add_node_returns_positions_and_add_edge_checks_endpoints() {
    let mut graph: Graph = Graph::new();
    assert_eq!(graph.add_node(Node::new("a", "A", "", GraphNodeKind::Input)), 0);
    assert_eq!(graph.add_node(Node::new("b", "B", "", GraphNodeKind::State)), 1);
    assert!(!graph.add_edge(Edge::new("x", "a", "c", GraphEdgeKind::Data)));
    assert!(!graph.add_edge(Edge::new("y", "c", "a", GraphEdgeKind::Data)));
    assert_eq!(graph.edges().len(), 0);
    assert!(graph.add_edge(Edge::new("z", "b", "a", GraphEdgeKind::Data)));
    assert_eq!(graph.edges().len(), 1);
    assert_eq!(graph.edge_endpoints(0), (1, 0));
}

#[test]
fn duplicate_ids_resolve_to_the_first_node() {
    let mut graph: Graph = Graph::new();
    graph.add_node(Node::new("a", "first", "", GraphNodeKind::Input));
    graph.add_node(Node::new("b", "B", "", GraphNodeKind::State));
    graph.add_node(Node::new("a", "second", "", GraphNodeKind::Input));
    assert_eq!(graph.node_index("a"), Some(0));
    assert_eq!(graph.node_index("b"), Some(1));
    assert_eq!(graph.node_index("zzz"), None);
    assert!(graph.add_edge(Edge::new("e", "b", "a", GraphEdgeKind::Data)));
    assert_eq!(graph.edge_endpoints(0), (1, 0));
}

#[test]
fn node_mut_updates_render_state() {
    let mut graph = two_node_graph();
    if let Some(node) = graph.node_mut("utility") {
        node.active = false;
    }
    assert!(graph.node_mut("missing").is_none());
    let nodes = graph.nodes();
    assert!(nodes[0].active);
    assert!(!nodes[1].active);
}

#[test]
fn dependency_levels_group_nodes_by_longest_chain() {
    let graph = two_node_graph();
    let levels = graph.dependency_levels().expect("graph should be acyclic");
    assert_eq!(levels, vec![vec!["data".to_string()], vec!["utility".to_string()]]);

    let diamond: Graph = Graph::try_from_parts(
        vec![
            Node::new("a", "A", "", GraphNodeKind::Input),
            Node::new("b", "B", "", GraphNodeKind::State),
            Node::new("c", "C", "", GraphNodeKind::State),
            Node::new("d", "D", "", GraphNodeKind::Utility),
            Node::new("e", "E", "", GraphNodeKind::Input),
        ],
        vec![
            Edge::new("a-b", "a", "b", GraphEdgeKind::Data),
            Edge::new("b-c", "b", "c", GraphEdgeKind::Data),
            Edge::new("a-d", "a", "d", GraphEdgeKind::Data),
            Edge::new("c-d", "c", "d", GraphEdgeKind::Data),
        ],
    )
    .expect("edge endpoints should exist");
    let levels = diamond.dependency_levels().expect("graph should be acyclic");
    let expected: Vec<Vec<String>> = vec![
        vec!["a".to_string(), "e".to_string()],
        vec!["b".to_string()],
        vec!["c".to_string()],
        vec!["d".to_string()],
    ];
    assert_eq!(levels, expected);
}

#[test]
fn dependency_levels_rejects_cycles() {
    let graph: Graph = Graph::try_from_parts(
        vec![
            Node::new("a", "A", "", GraphNodeKind::Input),
            Node::new("b", "B", "", GraphNodeKind::State),
        ],
        vec![
            Edge::new("a-b", "a", "b", GraphEdgeKind::Data),
            Edge::new("b-a", "b", "a", GraphEdgeKind::Data),
        ],
    )
    .expect("edge endpoints should exist");
    assert_eq!(graph.dependency_levels(), Err(GraphBuildError::CyclicDependencies));

    let empty: Graph = Graph::new();
    assert_eq!(empty.dependency_levels(), Ok(Vec::<Vec<String>>::new()));
}

#[test]
fn build_error_messages() {
    let missing = GraphBuildError::MissingEdgeEndpoint {
        edge_id: "e\"1".to_string(),
        from: "a".to_string(),
        to: "b".to_string(),
    };
    assert_eq!(
        missing.message(),
        "edge \"e\\\"1\" references missing endpoint(s): from=\"a\", to=\"b\""
    );
    assert_eq!(GraphBuildError::CyclicDependencies.message(), "graph edges form a cycle");
    assert_eq!(
        GraphJsonError::Build(GraphBuildError::CyclicDependencies).message(),
        "graph edges form a cycle"
    );
    assert_eq!(
        GraphJsonError::UnknownShape("blob".to_string()).message(),
        "unknown graph node shape \"blob\""
    );
}

#[test]
fn json_errors_keep_the_parse_error() {
    let parse_error = serde_json::from_str::<serde_json::Value>("{").unwrap_err();
    let text = parse_error.to_string();
    let error = GraphJsonError::from(parse_error);
    assert!(matches!(error, GraphJsonError::Parse(_)));
    assert_eq!(error.message(), text);
}

#[test]
fn json_shape_resolves_names_and_rejects_unknown_ones() {
    let shape = json_shape("hexagon").expect("hexagon is a shape name");
    assert_eq!(shape.kind(), ShapeKind::Hexagon);
    let shape = json_shape("double_circle").expect("double_circle is a shape name");
    assert_eq!(shape.kind(), ShapeKind::DoubleCircle);
    match json_shape("not_a_shape") {
        Err(GraphJsonError::UnknownShape(name)) => assert_eq!(name, "not_a_shape"),
        other => panic!("unexpected result {:?}", other.map(|s| s.kind())),
    }
}

#[test]
fn from_json_parts_reports_build_errors() {
    let result: Result<Graph, GraphJsonError> = Graph::from_json_parts(
        vec![Node::new("a", "A", "", GraphNodeKind::Input)],
        vec![Edge::new("e", "a", "b", GraphEdgeKind::Data)],
    );
    match result {
        Err(GraphJsonError::Build(GraphBuildError::MissingEdgeEndpoint { edge_id, from, to })) => {
            assert_eq!((edge_id.as_str(), from.as_str(), to.as_str()), ("e", "a", "b"));
        }
        _ => panic!("expected a build error"),
    }
    let ok: Graph = Graph::from_json_parts(vec![Node::new("a", "A", "", GraphNodeKind::Input)], vec![])
        .expect("a graph without edges builds");
    assert_eq!(ok.nodes().len(), 1);
}

#[test]
fn default_graph_is_empty() {
    let graph: Graph = Graph::default();
    assert!(graph.nodes().is_empty());
    assert!(graph.edges().is_empty());
    assert!(graph.layers().is_empty());
}

#[test]
fn add_layer_builds_one_edge_per_pair_in_row_order() {
    let mut graph: Graph = Graph::new();
    graph
        .add_layer(
            vec![
                Node::new("a", "A", "", GraphNodeKind::Input),
                Node::new("b", "B", "", GraphNodeKind::Input),
            ],
            GraphEdgeKind::Process,
        )
        .expect("first layer should build");
    assert!(graph.edges().is_empty());
    graph
        .add_layer(
            vec![
                Node::new("x", "X", "", GraphNodeKind::State),
                Node::new("y", "Y", "", GraphNodeKind::State),
                Node::new("z", "Z", "", GraphNodeKind::State),
            ],
            GraphEdgeKind::Process,
        )
        .expect("second layer should connect");
    let edges = graph.edges();
    let ids: Vec<&str> = edges.iter().map(|e| e.id.as_str()).collect();
    assert_eq!(ids, vec!["a->x", "a->y", "a->z", "b->x", "b->y", "b->z"]);
    assert_eq!(graph.edge_endpoints(4), (1, 3));
}
