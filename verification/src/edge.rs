//! Directed edges, their semantic kinds and their route shapes.

use vstd::prelude::*;

verus! {

/// The route family used to draw an edge.
#[derive(Clone, Copy, Debug, PartialEq, Eq, Structural)]
pub enum GraphEdgeShape {
    Straight,
    Curved,
    Orthogonal,
    Stepped,
}

/// The CSS class name of each edge route shape.
pub open spec fn edge_shape_css(shape: GraphEdgeShape) -> Seq<char> {
    match shape {
        GraphEdgeShape::Straight => "straight"@,
        GraphEdgeShape::Curved => "curved"@,
        GraphEdgeShape::Orthogonal => "orthogonal"@,
        GraphEdgeShape::Stepped => "stepped"@,
    }
}

impl GraphEdgeShape {
    pub fn css_class(self) -> (r: &'static str)
        ensures
            r@ == edge_shape_css(self),
    {
        match self {
            GraphEdgeShape::Straight => "straight",
            GraphEdgeShape::Curved => "curved",
            GraphEdgeShape::Orthogonal => "orthogonal",
            GraphEdgeShape::Stepped => "stepped",
        }
    }
}

impl Default for GraphEdgeShape {
    fn default() -> (r: Self)
        ensures
            r == GraphEdgeShape::Straight,
    {
        GraphEdgeShape::Straight
    }
}

/// What an edge means in the computational graph.
#[derive(Clone, Copy, Debug, PartialEq, Eq, Structural)]
pub enum GraphEdgeKind {
    Data,
    Process,
    DecisionContribution,
    StateContribution,
    UtilityAggregation,
}

/// The CSS class name of each edge kind.
pub open spec fn edge_kind_css(kind: GraphEdgeKind) -> Seq<char> {
    match kind {
        GraphEdgeKind::Data => "data"@,
        GraphEdgeKind::Process => "process"@,
        GraphEdgeKind::DecisionContribution => "decision"@,
        GraphEdgeKind::StateContribution => "state"@,
        GraphEdgeKind::UtilityAggregation => "utility"@,
    }
}

impl GraphEdgeKind {
    pub fn css_class(self) -> (r: &'static str)
        ensures
            r@ == edge_kind_css(self),
    {
        match self {
            GraphEdgeKind::Data => "data",
            GraphEdgeKind::Process => "process",
            GraphEdgeKind::DecisionContribution => "decision",
            GraphEdgeKind::StateContribution => "state",
            GraphEdgeKind::UtilityAggregation => "utility",
        }
    }
}

/// A directed edge between two nodes named by their ids, carrying a
/// caller-owned tool payload.
#[derive(Clone, Debug, PartialEq, Eq)]
pub struct Edge<Tool = ()> {
    pub id: String,
    pub from: String,
    pub to: String,
    pub kind: GraphEdgeKind,
    pub active: bool,
    pub tool: Tool,
}

/// `edge` with its payload replaced by `tool`, every other field kept.
pub open spec fn edge_with_tool<T, U>(edge: Edge<T>, tool: U) -> Edge<U> {
    Edge { id: edge.id, from: edge.from, to: edge.to, kind: edge.kind, active: edge.active, tool }
}

/// Replacing an edge's payload and then putting the old payload back gives
/// the edge back.
pub proof fn lemma_edge_tool_swap_back<T, U>(edge: Edge<T>, tool: U)
    ensures
        edge_with_tool(edge_with_tool(edge, tool), edge.tool) == edge,
{
}

impl Edge<()> {
    /// An active edge with no tool payload.
    pub fn new(id: &str, from: &str, to: &str, kind: GraphEdgeKind) -> (e: Self)
        ensures
            e.id@ == id@,
            e.from@ == from@,
            e.to@ == to@,
            e.kind == kind,
            e.active,
    {
        Edge {
            id: id.to_owned(),
            from: from.to_owned(),
            to: to.to_owned(),
            kind,
            active: true,
            tool: (),
        }
    }
}

impl<Tool> Edge<Tool> {
    /// An active edge carrying `tool`.
    pub fn new_with_tool(id: &str, from: &str, to: &str, kind: GraphEdgeKind, tool: Tool) -> (e: Self)
        ensures
            e.id@ == id@,
            e.from@ == from@,
            e.to@ == to@,
            e.kind == kind,
            e.active,
            e.tool == tool,
    {
        Edge {
            id: id.to_owned(),
            from: from.to_owned(),
            to: to.to_owned(),
            kind,
            active: true,
            tool,
        }
    }

    /// The same edge with its render state set to `active`.
    pub fn with_active(self, active: bool) -> (e: Self)
        ensures
            e == (Edge { active, ..self }),
    {
        let mut e = self;
        e.active = active;
        e
    }

    /// The same edge with its payload replaced by `tool`.
    pub fn with_tool<NextTool>(self, tool: NextTool) -> (e: Edge<NextTool>)
        ensures
            e == edge_with_tool(self, tool),
    {
        Edge {
            id: self.id,
            from: self.from,
            to: self.to,
            kind: self.kind,
            active: self.active,
            tool,
        }
    }
}

} // verus!
