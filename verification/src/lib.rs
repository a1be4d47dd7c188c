//! Directed computational graphs for DOT/Graphviz-style canvases: graph
//! construction, layered ranking, layout planning and DOT export.

pub mod edge;
pub mod shape;
mod text;
mod topology;

pub use edge::{Edge, GraphEdgeKind, GraphEdgeShape};
pub use shape::{GraphNodeGeometry, GraphNodeShape};
pub mod node;
pub use node::{GraphNodeKind, Node, ToolArgs};
pub mod graph;
pub mod layout_engine;
pub use graph::{Graph, GraphBuildError, GraphJsonError};
