use dot_graph::shape::{ShapeGeometry, ShapeKind, ShapePoint, ShapePolygon, ShapeRect, ShapeTriangle};
use dot_graph::{GraphNodeGeometry, GraphNodeKind, GraphNodeShape, Node};

fn p(x: i64, y: i64) -> ShapePoint {
    ShapePoint { x, y }
}

#[test]
fn default_for_name_resolves_hexagon() {
    let shape = GraphNodeShape::default_for_name("hexagon").expect("hexagon is a shape name");
    assert_eq!(shape.kind(), ShapeKind::Hexagon);
    assert_eq!(shape.dot_name(), "hexagon");
    let geometry = shape.geometry().expect("a hexagon has a geometry");
    assert_eq!(geometry.row, 0);
    assert_eq!(geometry.width, 1000);
    assert_eq!(geometry.height, 860);
    match geometry.shape {
        ShapeGeometry::Polygon(polygon) => {
            assert_eq!(polygon.exterior.len(), 7);
            assert_eq!(polygon.exterior[0], p(-500, 0));
            assert_eq!(polygon.exterior[6], p(-500, 0));
            assert!(polygon.interiors.is_empty());
        }
        _ => panic!("a hexagon is a polygon"),
    }
}

#[test]
fn default_for_name_accepts_aliases_and_rejects_unknown_names() {
    assert_eq!(GraphNodeShape::default_for_name("double_circle").map(|s| s.kind()), Some(ShapeKind::DoubleCircle));
    assert_eq!(GraphNodeShape::default_for_name("doublecircle").map(|s| s.kind()), Some(ShapeKind::DoubleCircle));
    assert_eq!(GraphNodeShape::default_for_name("Mdiamond").map(|s| s.kind()), Some(ShapeKind::MDiamond));
    assert_eq!(GraphNodeShape::default_for_name("m_square").map(|s| s.kind()), Some(ShapeKind::MSquare));
    assert_eq!(GraphNodeShape::default_for_name("none").map(|s| s.kind()), Some(ShapeKind::NoneShape));
    assert_eq!(GraphNodeShape::default_for_name("five_p_overhang").map(|s| s.kind()), Some(ShapeKind::FivePOverhang));
    assert!(GraphNodeShape::default_for_name("not_a_shape").is_none());
    assert!(GraphNodeShape::default_for_name("Box").is_none());
    assert!(GraphNodeShape::default_for_name("").is_none());
    assert_eq!(ShapeKind::for_name("cylinder"), Some(ShapeKind::Cylinder));
    assert_eq!(ShapeKind::for_name("cylinders"), None);
}

#[test]
fn every_dot_name_selects_its_own_family() {
    let kinds = [
        ShapeKind::Box, ShapeKind::Polygon, ShapeKind::Ellipse, ShapeKind::Oval, ShapeKind::Circle,
        ShapeKind::Point, ShapeKind::Egg, ShapeKind::Triangle, ShapeKind::Plaintext, ShapeKind::Plain,
        ShapeKind::Diamond, ShapeKind::Trapezium, ShapeKind::Parallelogram, ShapeKind::House,
        ShapeKind::Pentagon, ShapeKind::Hexagon, ShapeKind::Septagon, ShapeKind::Octagon,
        ShapeKind::DoubleCircle, ShapeKind::DoubleOctagon, ShapeKind::TripleOctagon,
        ShapeKind::InvTriangle, ShapeKind::InvTrapezium, ShapeKind::InvHouse, ShapeKind::MDiamond,
        ShapeKind::MSquare, ShapeKind::MCircle, ShapeKind::Rect, ShapeKind::Rectangle, ShapeKind::Square,
        ShapeKind::Star, ShapeKind::NoneShape, ShapeKind::Underline, ShapeKind::Cylinder, ShapeKind::Note,
        ShapeKind::Tab, ShapeKind::Folder, ShapeKind::Box3d, ShapeKind::Component, ShapeKind::Promoter,
        ShapeKind::Cds, ShapeKind::Terminator, ShapeKind::Utr, ShapeKind::PrimerSite,
        ShapeKind::RestrictionSite, ShapeKind::FivePOverhang, ShapeKind::ThreePOverhang,
        ShapeKind::NOverhang,
    ];
    for kind in kinds {
        assert_eq!(ShapeKind::for_name(kind.dot_name()), Some(kind));
        let shape = GraphNodeShape::default_for_kind(kind);
        assert_eq!(shape.kind(), kind);
        assert_eq!(shape.dot_name(), kind.dot_name());
        assert_eq!(GraphNodeShape::default_for_name(kind.dot_name()), Some(shape));
    }
    for a in kinds {
        for b in kinds {
            assert_eq!(a.dot_name() == b.dot_name(), a == b);
        }
    }
}

#[test]
fn css_class_lowercases_the_m_shapes_only() {
    assert_eq!(GraphNodeShape::default_for_kind(ShapeKind::MDiamond).css_class(), "mdiamond");
    assert_eq!(GraphNodeShape::default_for_kind(ShapeKind::MSquare).css_class(), "msquare");
    assert_eq!(GraphNodeShape::default_for_kind(ShapeKind::MCircle).css_class(), "mcircle");
    assert_eq!(GraphNodeShape::default_for_kind(ShapeKind::MDiamond).dot_name(), "Mdiamond");
    assert_eq!(GraphNodeShape::default_for_kind(ShapeKind::Diamond).css_class(), "diamond");
    assert_eq!(GraphNodeShape::default_for_kind(ShapeKind::NoneShape).css_class(), "none");
    assert_eq!(GraphNodeShape::default_for_kind(ShapeKind::Box3d).css_class(), "box3d");
}

#[test]
fn default_shape_is_the_wide_box() {
    let shape = GraphNodeShape::default();
    assert_eq!(shape.kind(), ShapeKind::Box);
    match shape {
        GraphNodeShape::Box(rect) => {
            assert_eq!(rect.min(), p(-500, -300));
            assert_eq!(rect.max(), p(500, 300));
        }
        _ => panic!("the default shape is a box"),
    }
    let geometry = GraphNodeShape::default().geometry_for_row(3).expect("a box has a geometry");
    assert_eq!((geometry.row, geometry.width, geometry.height), (3, 1000, 600));
}

#[test]
fn geometry_measures_points_triangles_and_rects() {
    let point = GraphNodeShape::default_for_kind(ShapeKind::Point).geometry().expect("a point has a geometry");
    assert_eq!((point.width, point.height), (0, 0));
    assert_eq!(point.shape, ShapeGeometry::Point(p(0, 0)));
    let placed = GraphNodeShape::Point(p(0, 0)).geometry_for_row(1).expect("a point has a geometry");
    assert_eq!((placed.row, placed.width, placed.height), (1, 0, 0));
    assert_eq!(placed.shape, ShapeGeometry::Point(p(0, 0)));

    let triangle = GraphNodeShape::default_for_kind(ShapeKind::InvTriangle)
        .geometry_for_row(2)
        .expect("a triangle has a geometry");
    assert_eq!((triangle.row, triangle.width, triangle.height), (2, 1000, 850));
    assert_eq!(triangle.shape, ShapeGeometry::Triangle(ShapeTriangle(p(0, -500), p(500, 350), p(-500, 350))));

    let cylinder = GraphNodeShape::default_for_name("cylinder").expect("cylinder is a shape name");
    let geometry = cylinder.geometry().expect("a cylinder has a geometry");
    assert_eq!((geometry.width, geometry.height), (1000, 700));

    assert!(GraphNodeShape::default_for_kind(ShapeKind::NoneShape).geometry().is_none());
    assert!(GraphNodeShape::NoneShape.geometry_for_row(5).is_none());
}

#[test]
fn rect_orders_its_corners_and_closes_its_ring() {
    let rect = ShapeRect::new(p(550, 320), p(-550, -320));
    assert_eq!(rect.min(), p(-550, -320));
    assert_eq!(rect.max(), p(550, 320));
    let polygon = rect.to_polygon();
    assert_eq!(
        polygon.exterior,
        vec![p(550, -320), p(550, 320), p(-550, 320), p(-550, -320), p(550, -320)]
    );
    let shape = GraphNodeShape::Oval(polygon);
    let geometry = shape.geometry().expect("an oval has a geometry");
    assert_eq!((geometry.width, geometry.height), (1100, 640));
}

#[test]
fn polygon_new_closes_open_rings() {
    let polygon = ShapePolygon::new(
        vec![p(0, 0), p(10, 0), p(10, 10)],
        vec![vec![p(1, 1), p(2, 1), p(1, 1)], vec![p(3, 3), p(4, 3)]],
    );
    assert_eq!(polygon.exterior, vec![p(0, 0), p(10, 0), p(10, 10), p(0, 0)]);
    assert_eq!(polygon.interiors[0], vec![p(1, 1), p(2, 1), p(1, 1)]);
    assert_eq!(polygon.interiors[1], vec![p(3, 3), p(4, 3), p(3, 3)]);
    let copy = polygon.duplicate();
    assert_eq!(copy, polygon);

    let empty = ShapePolygon::new(vec![], vec![]);
    assert!(empty.exterior.is_empty());
}

#[test]
fn node_geometry_uses_the_exterior_bounding_box() {
    let polygon = ShapePolygon::new(vec![p(-20, 5), p(30, -7), p(10, 40)], vec![vec![p(-100, -100), p(100, 100)]]);
    let geometry = GraphNodeGeometry::new(ShapeGeometry::Polygon(polygon), 4);
    assert_eq!((geometry.row, geometry.width, geometry.height), (4, 50, 47));
}

#[test]
fn node_kinds_pick_their_default_shapes() {
    let cases = [
        (GraphNodeKind::Input, ShapeKind::Cylinder),
        (GraphNodeKind::State, ShapeKind::Ellipse),
        (GraphNodeKind::DecisionVariable, ShapeKind::Diamond),
        (GraphNodeKind::PortfolioComponent, ShapeKind::Box),
        (GraphNodeKind::PortfolioRiskComponent, ShapeKind::Hexagon),
        (GraphNodeKind::PortfolioAsymmetryComponent, ShapeKind::Octagon),
        (GraphNodeKind::Utility, ShapeKind::DoubleCircle),
    ];
    for (kind, shape) in cases {
        assert_eq!(kind.default_shape(), GraphNodeShape::default_for_kind(shape));
        assert_eq!(Node::new("n", "N", "", kind).shape.kind(), shape);
    }
    let name = "double_circle";
    assert_eq!(
        Some(GraphNodeKind::Utility.default_shape()),
        GraphNodeShape::default_for_name(name)
    );
}
