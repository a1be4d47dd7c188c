//! Nodes, their semantic kinds and the tool payloads they carry.

use vstd::prelude::*;

use crate::shape::{default_outline, shape_kind, shape_outline, GraphNodeShape, ShapeKind};

verus! {

/// Arguments that a node's tool can be invoked with.
pub trait ToolArgs: Send + Sync {}

impl ToolArgs for () {}

impl<T: ToolArgs + ?Sized> ToolArgs for &T {}

/// What a node means in the computational graph.
#[derive(Clone, Copy, Debug, PartialEq, Eq, Structural)]
pub enum GraphNodeKind {
    Input,
    State,
    DecisionVariable,
    PortfolioComponent,
    PortfolioRiskComponent,
    PortfolioAsymmetryComponent,
    Utility,
}

/// The display label of each node kind.
pub open spec fn node_kind_label(kind: GraphNodeKind) -> Seq<char> {
    match kind {
        GraphNodeKind::Input => "Input"@,
        GraphNodeKind::State => "State"@,
        GraphNodeKind::DecisionVariable => "Decision"@,
        GraphNodeKind::PortfolioComponent => "Return"@,
        GraphNodeKind::PortfolioRiskComponent => "Risk"@,
        GraphNodeKind::PortfolioAsymmetryComponent => "Asymmetry"@,
        GraphNodeKind::Utility => "Utility"@,
    }
}

/// The CSS class name of each node kind.
pub open spec fn node_kind_css(kind: GraphNodeKind) -> Seq<char> {
    match kind {
        GraphNodeKind::Input => "input"@,
        GraphNodeKind::State => "state"@,
        GraphNodeKind::DecisionVariable => "decision-variable"@,
        GraphNodeKind::PortfolioComponent => "portfolio-component"@,
        GraphNodeKind::PortfolioRiskComponent => "portfolio-risk-component"@,
        GraphNodeKind::PortfolioAsymmetryComponent => "portfolio-asymmetry-component"@,
        GraphNodeKind::Utility => "utility"@,
    }
}

/// The shape family each node kind is drawn with by default.
pub open spec fn node_kind_shape(kind: GraphNodeKind) -> ShapeKind {
    match kind {
        GraphNodeKind::Input => ShapeKind::Cylinder,
        GraphNodeKind::State => ShapeKind::Ellipse,
        GraphNodeKind::DecisionVariable => ShapeKind::Diamond,
        GraphNodeKind::PortfolioComponent => ShapeKind::Box,
        GraphNodeKind::PortfolioRiskComponent => ShapeKind::Hexagon,
        GraphNodeKind::PortfolioAsymmetryComponent => ShapeKind::Octagon,
        GraphNodeKind::Utility => ShapeKind::DoubleCircle,
    }
}

/// Whether `shape` is the default shape of a node of kind `kind`: the
/// default shape of its family.
pub open spec fn is_default_shape(kind: GraphNodeKind, shape: GraphNodeShape) -> bool {
    &&& shape_kind(shape) == node_kind_shape(kind)
    &&& shape_outline(shape) == default_outline(node_kind_shape(kind))
}

impl GraphNodeKind {
    pub fn label(self) -> (r: &'static str)
        ensures
            r@ == node_kind_label(self),
    {
        match self {
            GraphNodeKind::Input => "Input",
            GraphNodeKind::State => "State",
            GraphNodeKind::DecisionVariable => "Decision",
            GraphNodeKind::PortfolioComponent => "Return",
            GraphNodeKind::PortfolioRiskComponent => "Risk",
            GraphNodeKind::PortfolioAsymmetryComponent => "Asymmetry",
            GraphNodeKind::Utility => "Utility",
        }
    }

    pub fn css_class(self) -> (r: &'static str)
        ensures
            r@ == node_kind_css(self),
    {
        match self {
            GraphNodeKind::Input => "input",
            GraphNodeKind::State => "state",
            GraphNodeKind::DecisionVariable => "decision-variable",
            GraphNodeKind::PortfolioComponent => "portfolio-component",
            GraphNodeKind::PortfolioRiskComponent => "portfolio-risk-component",
            GraphNodeKind::PortfolioAsymmetryComponent => "portfolio-asymmetry-component",
            GraphNodeKind::Utility => "utility",
        }
    }

    /// The shape a node of this kind is drawn with unless told otherwise.
    pub fn default_shape(self) -> (s: GraphNodeShape)
        ensures
            is_default_shape(self, s),
    {
        let family = match self {
            GraphNodeKind::Input => ShapeKind::Cylinder,
            GraphNodeKind::State => ShapeKind::Ellipse,
            GraphNodeKind::DecisionVariable => ShapeKind::Diamond,
            GraphNodeKind::PortfolioComponent => ShapeKind::Box,
            GraphNodeKind::PortfolioRiskComponent => ShapeKind::Hexagon,
            GraphNodeKind::PortfolioAsymmetryComponent => ShapeKind::Octagon,
            GraphNodeKind::Utility => ShapeKind::DoubleCircle,
        };
        GraphNodeShape::default_for_kind(family)
    }
}

/// `node` with its payload replaced by `tool`, every other field kept.
pub open spec fn node_with_tool<T, U>(node: Node<T>, tool: U) -> Node<U> {
    Node {
        id: node.id,
        label: node.label,
        detail: node.detail,
        kind: node.kind,
        shape: node.shape,
        active: node.active,
        tool,
    }
}

/// Replacing a node's payload and then putting the old payload back gives
/// the node back.
pub proof fn lemma_node_tool_swap_back<T, U>(node: Node<T>, tool: U)
    ensures
        node_with_tool(node_with_tool(node, tool), node.tool) == node,
{
}

/// A node of the graph: a stable id, display text, a semantic kind, a shape,
/// a render state and a caller-owned tool payload.
#[derive(Clone, Debug, PartialEq)]
pub struct Node<Tool = ()> {
    pub id: String,
    pub label: String,
    pub detail: String,
    pub kind: GraphNodeKind,
    pub shape: GraphNodeShape,
    pub active: bool,
    pub tool: Tool,
}

impl Node<()> {
    /// An active node with the default shape of its kind and no tool.
    pub fn new(id: &str, label: &str, detail: &str, kind: GraphNodeKind) -> (n: Self)
        ensures
            n.id@ == id@,
            n.label@ == label@,
            n.detail@ == detail@,
            n.kind == kind,
            is_default_shape(kind, n.shape),
            n.active,
    {
        Node {
            id: id.to_owned(),
            label: label.to_owned(),
            detail: detail.to_owned(),
            kind,
            shape: kind.default_shape(),
            active: true,
            tool: (),
        }
    }
}

impl<Tool> Node<Tool> {
    /// An active node with the default shape of its kind, carrying `tool`.
    pub fn new_with_tool(id: &str, label: &str, detail: &str, kind: GraphNodeKind, tool: Tool) -> (n: Self)
        ensures
            n.id@ == id@,
            n.label@ == label@,
            n.detail@ == detail@,
            n.kind == kind,
            is_default_shape(kind, n.shape),
            n.active,
            n.tool == tool,
    {
        Node {
            id: id.to_owned(),
            label: label.to_owned(),
            detail: detail.to_owned(),
            kind,
            shape: kind.default_shape(),
            active: true,
            tool,
        }
    }

    /// The same node drawn with `shape`.
    pub fn with_shape(self, shape: GraphNodeShape) -> (n: Self)
        ensures
            n == (Node { shape, ..self }),
    {
        let mut n = self;
        n.shape = shape;
        n
    }

    /// The same node with its render state set to `active`.
    pub fn with_active(self, active: bool) -> (n: Self)
        ensures
            n == (Node { active, ..self }),
    {
        let mut n = self;
        n.active = active;
        n
    }

    /// The same node with its payload replaced by `tool`.
    pub fn with_tool<NextTool>(self, tool: NextTool) -> (n: Node<NextTool>)
        ensures
            n == node_with_tool(self, tool),
    {
        Node {
            id: self.id,
            label: self.label,
            detail: self.detail,
            kind: self.kind,
            shape: self.shape,
            active: self.active,
            tool,
        }
    }
}

} // verus!
