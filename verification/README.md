# dot_graph

Directed computational graphs for DOT/Graphviz-style canvases, verified with
Verus.

- `src/` is the verified library: nodes and edges with caller-owned tool
  payloads (`node`, `edge`), the Graphviz node shapes with integer outlines
  (`shape`), the graph container with layered construction and dependency
  levels (`graph`, with its topology held in a `petgraph` stable graph behind
  `topology`), longest-path layer ranking (`layout_engine::rank`), and layout
  planning and DOT export (`layout_engine::dot`).
- `app/` is the plain Rust around it: JSON loading through serde, the
  floating-point drawing of a layout plan on a 100 x 100 canvas, and the
  Dioxus components that render it.
- `tests/` exercises the library from outside.

Shape outlines are kept in thousandths of a node unit, so a node one unit
wide spans -500 to 500; `app/` converts them to and from `geo` geometries in
node units.
