use dot_graph::shape::ShapeKind;
use dot_graph::{Edge, GraphEdgeKind, GraphEdgeShape, GraphNodeKind, GraphNodeShape, Node};

#[test]
fn edge_shape_css_classes() {
    assert_eq!(GraphEdgeShape::Straight.css_class(), "straight");
    assert_eq!(GraphEdgeShape::Curved.css_class(), "curved");
    assert_eq!(GraphEdgeShape::Orthogonal.css_class(), "orthogonal");
    assert_eq!(GraphEdgeShape::Stepped.css_class(), "stepped");
    assert_eq!(GraphEdgeShape::default(), GraphEdgeShape::Straight);
}

#[test]
fn edge_kind_css_classes() {
    assert_eq!(GraphEdgeKind::Data.css_class(), "data");
    assert_eq!(GraphEdgeKind::Process.css_class(), "process");
    assert_eq!(GraphEdgeKind::DecisionContribution.css_class(), "decision");
    assert_eq!(GraphEdgeKind::StateContribution.css_class(), "state");
    assert_eq!(GraphEdgeKind::UtilityAggregation.css_class(), "utility");
}

#[test]
fn node_kind_labels_and_css_classes() {
    let cases = [
        (GraphNodeKind::Input, "Input", "input"),
        (GraphNodeKind::State, "State", "state"),
        (GraphNodeKind::DecisionVariable, "Decision", "decision-variable"),
        (GraphNodeKind::PortfolioComponent, "Return", "portfolio-component"),
        (GraphNodeKind::PortfolioRiskComponent, "Risk", "portfolio-risk-component"),
        (GraphNodeKind::PortfolioAsymmetryComponent, "Asymmetry", "portfolio-asymmetry-component"),
        (GraphNodeKind::Utility, "Utility", "utility"),
    ];
    for (kind, label, css) in cases {
        assert_eq!(kind.label(), label);
        assert_eq!(kind.css_class(), css);
    }
}

#[test]
fn edges_start_active_and_keep_their_fields() {
    let edge = Edge::new("data_to_state", "data", "state", GraphEdgeKind::Data);
    assert_eq!(edge.id, "data_to_state");
    assert_eq!(edge.from, "data");
    assert_eq!(edge.to, "state");
    assert_eq!(edge.kind, GraphEdgeKind::Data);
    assert!(edge.active);
    assert_eq!(edge.tool, ());

    let with_payload = Edge::new_with_tool("e", "a", "b", GraphEdgeKind::Process, 7u32);
    assert_eq!(with_payload.tool, 7);
    assert!(with_payload.active);
}

#[test]
fn edge_helpers_change_payload_and_render_state() {
    let edge = Edge::new("data_to_state", "data", "state", GraphEdgeKind::Data)
        .with_tool("returns_panel".to_string())
        .with_active(false);
    assert_eq!(edge.tool, "returns_panel");
    assert!(!edge.active);
    assert_eq!(edge.id, "data_to_state");
    assert_eq!(edge.kind, GraphEdgeKind::Data);
    let again = edge.with_active(true);
    assert!(again.active);
}

#[test]
fn nodes_start_active_with_their_kind_shape() {
    let node = Node::new("data", "Data", "load panel", GraphNodeKind::Input);
    assert_eq!(node.id, "data");
    assert_eq!(node.label, "Data");
    assert_eq!(node.detail, "load panel");
    assert_eq!(node.kind, GraphNodeKind::Input);
    assert!(node.active);
    assert_eq!(node.shape.kind(), ShapeKind::Cylinder);
}

#[derive(Clone, Debug, PartialEq)]
enum Command {
    ReadBin,
}

#[test]
fn node_helpers_change_payload_shape_and_render_state() {
    let node = Node::new("data", "Data", "load panel", GraphNodeKind::Input)
        .with_tool(Some(Command::ReadBin))
        .with_shape(GraphNodeShape::default_for_kind(ShapeKind::Folder))
        .with_active(false);
    assert_eq!(node.tool, Some(Command::ReadBin));
    assert_eq!(node.shape.kind(), ShapeKind::Folder);
    assert!(!node.active);
    assert_eq!(node.kind, GraphNodeKind::Input);

    let with_payload = Node::new_with_tool("w", "W", "", GraphNodeKind::DecisionVariable, 3i32);
    assert_eq!(with_payload.tool, 3);
    assert_eq!(with_payload.shape.kind(), ShapeKind::Diamond);
}

#[test]
fn swapping_the_payload_back_restores_edges_and_nodes() {
    let edge = Edge::new("e", "a", "b", GraphEdgeKind::Process).with_active(false);
    let restored = edge.clone().with_tool(42u8).with_tool(());
    assert_eq!(restored, edge);

    let node = Node::new("n", "N", "detail", GraphNodeKind::Utility);
    let restored = node.clone().with_tool("payload".to_string()).with_tool(());
    assert_eq!(restored, node);
}
