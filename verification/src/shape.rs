//! Node shapes: the Graphviz polygon-based shape families and their outlines.
//!
//! Outlines are kept in integer thousandths of a node unit, so that a node
//! one unit wide spans the coordinates -500 to 500.

use vstd::prelude::*;

use crate::text::str_eq;

verus! {

/// A point, in thousandths of a node unit.
#[derive(Clone, Copy, Debug, PartialEq, Eq, Structural)]
pub struct ShapePoint {
    pub x: i64,
    pub y: i64,
}

/// The point `(x, y)`.
pub open spec fn pt(x: int, y: int) -> ShapePoint {
    ShapePoint { x: x as i64, y: y as i64 }
}

/// An axis-aligned rectangle whose corners are ordered: `min` is below and
/// left of `max`.
#[derive(Clone, Copy, Debug, PartialEq, Eq)]
pub struct ShapeRect {
    min: ShapePoint,
    max: ShapePoint,
}

/// A triangle given by its three corners.
#[derive(Clone, Copy, Debug, PartialEq, Eq, Structural)]
pub struct ShapeTriangle(pub ShapePoint, pub ShapePoint, pub ShapePoint);

/// A polygon: an exterior ring and interior rings (holes).
#[derive(Clone, Debug, PartialEq)]
pub struct ShapePolygon {
    pub exterior: Vec<ShapePoint>,
    pub interiors: Vec<Vec<ShapePoint>>,
}

/// A geometry that a node can be drawn with.
#[derive(Clone, Debug, PartialEq)]
pub enum ShapeGeometry {
    Rect(ShapeRect),
    Polygon(ShapePolygon),
    Point(ShapePoint),
    Triangle(ShapeTriangle),
}

/// The mathematical content of a geometry.
pub enum Outline {
    /// The lower-left and upper-right corners of a rectangle.
    Rect(ShapePoint, ShapePoint),
    /// The exterior ring and the interior rings of a polygon.
    Polygon(Seq<ShapePoint>, Seq<Seq<ShapePoint>>),
    Point(ShapePoint),
    Triangle(ShapePoint, ShapePoint, ShapePoint),
}

impl ShapeRect {
    #[verifier::type_invariant]
    closed spec fn ordered(self) -> bool {
        self.min.x <= self.max.x && self.min.y <= self.max.y
    }

    /// The lower-left corner.
    pub closed spec fn lo(self) -> ShapePoint {
        self.min
    }

    /// The upper-right corner.
    pub closed spec fn hi(self) -> ShapePoint {
        self.max
    }

    pub open spec fn outline(self) -> Outline {
        Outline::Rect(self.lo(), self.hi())
    }

    /// The rectangle spanned by two opposite corners, in either order.
    pub fn new(a: ShapePoint, b: ShapePoint) -> (r: ShapeRect)
        ensures
            r.outline() == Outline::Rect(
                pt(if a.x <= b.x { a.x as int } else { b.x as int }, if a.y <= b.y { a.y as int } else { b.y as int }),
                pt(if a.x <= b.x { b.x as int } else { a.x as int }, if a.y <= b.y { b.y as int } else { a.y as int }),
            ),
    {
        let (lx, hx) = if a.x <= b.x { (a.x, b.x) } else { (b.x, a.x) };
        let (ly, hy) = if a.y <= b.y { (a.y, b.y) } else { (b.y, a.y) };
        ShapeRect { min: ShapePoint { x: lx, y: ly }, max: ShapePoint { x: hx, y: hy } }
    }

    /// The lower-left corner.
    pub fn min(&self) -> (p: ShapePoint)
        ensures
            p == self.lo(),
    {
        self.min
    }

    /// The upper-right corner.
    pub fn max(&self) -> (p: ShapePoint)
        ensures
            p == self.hi(),
    {
        self.max
    }

    /// The closed polygon ring around this rectangle.
    pub fn to_polygon(&self) -> (p: ShapePolygon)
        ensures
            p.outline() == Outline::Polygon(rect_ring(self.lo(), self.hi()), Seq::empty()),
    {
        let mut ring: Vec<ShapePoint> = Vec::new();
        ring.push(ShapePoint { x: self.max.x, y: self.min.y });
        ring.push(ShapePoint { x: self.max.x, y: self.max.y });
        ring.push(ShapePoint { x: self.min.x, y: self.max.y });
        ring.push(ShapePoint { x: self.min.x, y: self.min.y });
        ring.push(ShapePoint { x: self.max.x, y: self.min.y });
        assert(ring@ =~= rect_ring(self.lo(), self.hi()));
        let p = ShapePolygon { exterior: ring, interiors: Vec::new() };
        assert(p.interiors@.map_values(|r: Vec<ShapePoint>| r@) =~= Seq::<Seq<ShapePoint>>::empty());
        p
    }
}

impl ShapePoint {
    pub open spec fn outline(self) -> Outline {
        Outline::Point(self)
    }
}

impl ShapeTriangle {
    pub open spec fn outline(self) -> Outline {
        Outline::Triangle(self.0, self.1, self.2)
    }
}

/// A ring that is closed: empty, or ending where it starts.
pub open spec fn closed_ring(ring: Seq<ShapePoint>) -> Seq<ShapePoint> {
    if ring.len() == 0 || ring.last() == ring[0] {
        ring
    } else {
        ring.push(ring[0])
    }
}

impl ShapePolygon {
    pub open spec fn outline(self) -> Outline {
        Outline::Polygon(self.exterior@, self.interiors@.map_values(|r: Vec<ShapePoint>| r@))
    }

    /// A polygon with the given rings, each closed by repeating its first
    /// point at its end where it does not already end there.
    pub fn new(exterior: Vec<ShapePoint>, interiors: Vec<Vec<ShapePoint>>) -> (p: ShapePolygon)
        ensures
            p.outline() == Outline::Polygon(
                closed_ring(exterior@),
                interiors@.map_values(|r: Vec<ShapePoint>| closed_ring(r@)),
            ),
    {
        let mut exterior = exterior;
        close_ring(&mut exterior);
        let mut closed: Vec<Vec<ShapePoint>> = Vec::new();
        let mut rest = interiors;
        let ghost orig = rest@;
        let mut i: usize = 0;
        let n = rest.len();
        while i < n
            invariant
                n == orig.len(),
                rest@.len() == n - i,
                i <= n,
                forall|k: int| 0 <= k < rest@.len() ==> rest@[k] == orig[k + i],
                closed@.len() == i,
                forall|k: int| 0 <= k < i ==> #[trigger] closed@[k]@ == closed_ring(orig[k]@),
            decreases n - i,
        {
            let mut ring = rest.remove(0);
            close_ring(&mut ring);
            closed.push(ring);
            i = i + 1;
        }
        let p = ShapePolygon { exterior, interiors: closed };
        assert(p.interiors@.map_values(|r: Vec<ShapePoint>| r@) =~= orig.map_values(
            |r: Vec<ShapePoint>| closed_ring(r@),
        ));
        p
    }

    /// A polygon with one exterior ring that is already closed and no holes.
    fn from_ring(exterior: Vec<ShapePoint>) -> (p: ShapePolygon)
        ensures
            p.outline() == Outline::Polygon(exterior@, Seq::empty()),
    {
        let p = ShapePolygon { exterior, interiors: Vec::new() };
        assert(p.interiors@.map_values(|r: Vec<ShapePoint>| r@) =~= Seq::<Seq<ShapePoint>>::empty());
        p
    }

    /// A copy of this polygon.
    pub fn duplicate(&self) -> (p: ShapePolygon)
        ensures
            p.outline() == self.outline(),
    {
        let exterior = copy_ring(&self.exterior);
        let mut interiors: Vec<Vec<ShapePoint>> = Vec::new();
        let mut i: usize = 0;
        while i < self.interiors.len()
            invariant
                i <= self.interiors@.len(),
                interiors@.len() == i,
                forall|k: int| 0 <= k < i ==> #[trigger] interiors@[k]@ == self.interiors@[k]@,
            decreases self.interiors@.len() - i,
        {
            let ring = copy_ring(&self.interiors[i]);
            interiors.push(ring);
            i = i + 1;
        }
        let p = ShapePolygon { exterior, interiors };
        assert(p.interiors@.map_values(|r: Vec<ShapePoint>| r@) =~= self.interiors@.map_values(
            |r: Vec<ShapePoint>| r@,
        ));
        p
    }
}

/// Repeats the first point of a ring at its end unless the ring is empty or
/// already ends there.
fn close_ring(ring: &mut Vec<ShapePoint>)
    ensures
        final(ring)@ == closed_ring(old(ring)@),
{
    let n = ring.len();
    if n > 0 {
        let first = ring[0];
        let last = ring[n - 1];
        if !(last.x == first.x && last.y == first.y) {
            ring.push(first);
        }
    }
}

/// A copy of a ring.
fn copy_ring(ring: &Vec<ShapePoint>) -> (r: Vec<ShapePoint>)
    ensures
        r@ == ring@,
{
    let mut r: Vec<ShapePoint> = Vec::new();
    let mut i: usize = 0;
    while i < ring.len()
        invariant
            i <= ring@.len(),
            r@ == ring@.take(i as int),
        decreases ring@.len() - i,
    {
        r.push(ring[i]);
        i = i + 1;
        assert(r@ =~= ring@.take(i as int));
    }
    assert(ring@.take(ring@.len() as int) =~= ring@);
    r
}

impl ShapeGeometry {
    pub open spec fn outline(self) -> Outline {
        match self {
            ShapeGeometry::Rect(r) => r.outline(),
            ShapeGeometry::Polygon(p) => p.outline(),
            ShapeGeometry::Point(p) => p.outline(),
            ShapeGeometry::Triangle(t) => t.outline(),
        }
    }
}

/// The smallest (`high` false) or largest (`high` true) x (`on_x` true) or
/// y (`on_x` false) coordinate of a non-empty ring.
pub open spec fn ring_bound(ring: Seq<ShapePoint>, on_x: bool, high: bool) -> int
    decreases ring.len(),
{
    if ring.len() <= 1 {
        coord(ring[0], on_x)
    } else {
        let rest = ring_bound(ring.drop_last(), on_x, high);
        let c = coord(ring.last(), on_x);
        if high {
            if c > rest { c } else { rest }
        } else {
            if c < rest { c } else { rest }
        }
    }
}

pub open spec fn coord(p: ShapePoint, on_x: bool) -> int {
    if on_x { p.x as int } else { p.y as int }
}

/// The width and height of the bounding box of a ring; an empty ring has no
/// extent.
pub open spec fn ring_extent(ring: Seq<ShapePoint>) -> (int, int) {
    if ring.len() == 0 {
        (0, 0)
    } else {
        (
            ring_bound(ring, true, true) - ring_bound(ring, true, false),
            ring_bound(ring, false, true) - ring_bound(ring, false, false),
        )
    }
}

/// The width and height of the bounding box of an outline. Interior rings lie
/// inside the exterior ring and do not count.
pub open spec fn outline_extent(o: Outline) -> (int, int) {
    match o {
        Outline::Rect(lo, hi) => (hi.x - lo.x, hi.y - lo.y),
        Outline::Polygon(exterior, _) => ring_extent(exterior),
        Outline::Point(_) => (0, 0),
        Outline::Triangle(a, b, c) => ring_extent(seq![a, b, c]),
    }
}

proof fn lemma_ring_bound_order(ring: Seq<ShapePoint>, on_x: bool)
    requires
        ring.len() > 0,
    ensures
        ring_bound(ring, on_x, false) <= ring_bound(ring, on_x, true),
        forall|k: int| 0 <= k < ring.len() ==> ring_bound(ring, on_x, false) <= #[trigger] coord(ring[k], on_x) <= ring_bound(ring, on_x, true),
    decreases ring.len(),
{
    if ring.len() > 1 {
        lemma_ring_bound_order(ring.drop_last(), on_x);
        assert forall|k: int| 0 <= k < ring.len() implies ring_bound(ring, on_x, false) <= #[trigger] coord(ring[k], on_x) <= ring_bound(ring, on_x, true) by {
            if k < ring.len() - 1 {
                assert(ring[k] == ring.drop_last()[k]);
            }
        }
    }
}

/// The width and height of the bounding box of a ring.
fn ring_bounds(ring: &Vec<ShapePoint>) -> (r: (u64, u64))
    ensures
        r.0 == ring_extent(ring@).0,
        r.1 == ring_extent(ring@).1,
{
    let n = ring.len();
    if n == 0 {
        return (0, 0);
    }
    let mut lx = ring[0].x;
    let mut hx = ring[0].x;
    let mut ly = ring[0].y;
    let mut hy = ring[0].y;
    let mut i: usize = 1;
    assert(ring@.take(1).len() == 1);
    while i < n
        invariant
            n == ring@.len(),
            1 <= i <= n,
            lx == ring_bound(ring@.take(i as int), true, false),
            hx == ring_bound(ring@.take(i as int), true, true),
            ly == ring_bound(ring@.take(i as int), false, false),
            hy == ring_bound(ring@.take(i as int), false, true),
        decreases n - i,
    {
        let p = ring[i];
        assert(ring@.take(i + 1).drop_last() =~= ring@.take(i as int));
        if p.x < lx {
            lx = p.x;
        }
        if p.x > hx {
            hx = p.x;
        }
        if p.y < ly {
            ly = p.y;
        }
        if p.y > hy {
            hy = p.y;
        }
        i = i + 1;
    }
    assert(ring@.take(n as int) =~= ring@);
    proof {
        lemma_ring_bound_order(ring@, true);
        lemma_ring_bound_order(ring@, false);
    }
    (((hx as i128) - (lx as i128)) as u64, ((hy as i128) - (ly as i128)) as u64)
}

/// A node geometry placed on a layout row, with the width and height of its
/// bounding box.
#[derive(Clone, Debug, PartialEq)]
pub struct GraphNodeGeometry {
    pub shape: ShapeGeometry,
    pub row: usize,
    pub width: u64,
    pub height: u64,
}

impl GraphNodeGeometry {
    /// The geometry `shape` on row `row`, measured by its bounding box.
    pub fn new(shape: ShapeGeometry, row: usize) -> (g: GraphNodeGeometry)
        ensures
            g.shape == shape,
            g.row == row,
            g.width == outline_extent(shape.outline()).0,
            g.height == outline_extent(shape.outline()).1,
    {
        let (width, height) = match &shape {
            ShapeGeometry::Rect(r) => {
                proof {
                    use_type_invariant(r);
                }
                (((r.max.x as i128) - (r.min.x as i128)) as u64, ((r.max.y as i128) - (r.min.y as i128)) as u64)
            },
            ShapeGeometry::Polygon(p) => ring_bounds(&p.exterior),
            ShapeGeometry::Point(_) => (0, 0),
            ShapeGeometry::Triangle(t) => {
                let mut corners: Vec<ShapePoint> = Vec::new();
                corners.push(t.0);
                corners.push(t.1);
                corners.push(t.2);
                assert(corners@ =~= seq![t.0, t.1, t.2]);
                ring_bounds(&corners)
            },
        };
        GraphNodeGeometry { shape, row, width, height }
    }
}

/// The Graphviz shape family of a node shape, without its geometry.
#[derive(Clone, Copy, Debug, PartialEq, Eq, Structural)]
pub enum ShapeKind {
    Box,
    Polygon,
    Ellipse,
    Oval,
    Circle,
    Point,
    Egg,
    Triangle,
    Plaintext,
    Plain,
    Diamond,
    Trapezium,
    Parallelogram,
    House,
    Pentagon,
    Hexagon,
    Septagon,
    Octagon,
    DoubleCircle,
    DoubleOctagon,
    TripleOctagon,
    InvTriangle,
    InvTrapezium,
    InvHouse,
    MDiamond,
    MSquare,
    MCircle,
    Rect,
    Rectangle,
    Square,
    Star,
    NoneShape,
    Underline,
    Cylinder,
    Note,
    Tab,
    Folder,
    Box3d,
    Component,
    Promoter,
    Cds,
    Terminator,
    Utr,
    PrimerSite,
    RestrictionSite,
    FivePOverhang,
    ThreePOverhang,
    NOverhang,
}

/// How a node is drawn: a Graphviz polygon-based shape family together with its
/// outline, in thousandths of a node unit.
#[derive(Clone, Debug, PartialEq)]
pub enum GraphNodeShape {
    Box(ShapeRect),
    Polygon(ShapePolygon),
    Ellipse(ShapePolygon),
    Oval(ShapePolygon),
    Circle(ShapePolygon),
    Point(ShapePoint),
    Egg(ShapePolygon),
    Triangle(ShapeTriangle),
    Plaintext(ShapeRect),
    Plain(ShapeRect),
    Diamond(ShapePolygon),
    Trapezium(ShapePolygon),
    Parallelogram(ShapePolygon),
    House(ShapePolygon),
    Pentagon(ShapePolygon),
    Hexagon(ShapePolygon),
    Septagon(ShapePolygon),
    Octagon(ShapePolygon),
    DoubleCircle(ShapePolygon),
    DoubleOctagon(ShapePolygon),
    TripleOctagon(ShapePolygon),
    InvTriangle(ShapeTriangle),
    InvTrapezium(ShapePolygon),
    InvHouse(ShapePolygon),
    MDiamond(ShapePolygon),
    MSquare(ShapeRect),
    MCircle(ShapePolygon),
    Rect(ShapeRect),
    Rectangle(ShapeRect),
    Square(ShapeRect),
    Star(ShapePolygon),
    NoneShape,
    Underline(ShapeRect),
    Cylinder(ShapePolygon),
    Note(ShapePolygon),
    Tab(ShapePolygon),
    Folder(ShapePolygon),
    Box3d(ShapePolygon),
    Component(ShapePolygon),
    Promoter(ShapePolygon),
    Cds(ShapePolygon),
    Terminator(ShapePolygon),
    Utr(ShapePolygon),
    PrimerSite(ShapePolygon),
    RestrictionSite(ShapePolygon),
    FivePOverhang(ShapePolygon),
    ThreePOverhang(ShapePolygon),
    NOverhang(ShapePolygon),
}

/// The shape family of a shape.
pub open spec fn shape_kind(s: GraphNodeShape) -> ShapeKind {
    match s {
        GraphNodeShape::Box(_) => ShapeKind::Box,
        GraphNodeShape::Polygon(_) => ShapeKind::Polygon,
        GraphNodeShape::Ellipse(_) => ShapeKind::Ellipse,
        GraphNodeShape::Oval(_) => ShapeKind::Oval,
        GraphNodeShape::Circle(_) => ShapeKind::Circle,
        GraphNodeShape::Point(_) => ShapeKind::Point,
        GraphNodeShape::Egg(_) => ShapeKind::Egg,
        GraphNodeShape::Triangle(_) => ShapeKind::Triangle,
        GraphNodeShape::Plaintext(_) => ShapeKind::Plaintext,
        GraphNodeShape::Plain(_) => ShapeKind::Plain,
        GraphNodeShape::Diamond(_) => ShapeKind::Diamond,
        GraphNodeShape::Trapezium(_) => ShapeKind::Trapezium,
        GraphNodeShape::Parallelogram(_) => ShapeKind::Parallelogram,
        GraphNodeShape::House(_) => ShapeKind::House,
        GraphNodeShape::Pentagon(_) => ShapeKind::Pentagon,
        GraphNodeShape::Hexagon(_) => ShapeKind::Hexagon,
        GraphNodeShape::Septagon(_) => ShapeKind::Septagon,
        GraphNodeShape::Octagon(_) => ShapeKind::Octagon,
        GraphNodeShape::DoubleCircle(_) => ShapeKind::DoubleCircle,
        GraphNodeShape::DoubleOctagon(_) => ShapeKind::DoubleOctagon,
        GraphNodeShape::TripleOctagon(_) => ShapeKind::TripleOctagon,
        GraphNodeShape::InvTriangle(_) => ShapeKind::InvTriangle,
        GraphNodeShape::InvTrapezium(_) => ShapeKind::InvTrapezium,
        GraphNodeShape::InvHouse(_) => ShapeKind::InvHouse,
        GraphNodeShape::MDiamond(_) => ShapeKind::MDiamond,
        GraphNodeShape::MSquare(_) => ShapeKind::MSquare,
        GraphNodeShape::MCircle(_) => ShapeKind::MCircle,
        GraphNodeShape::Rect(_) => ShapeKind::Rect,
        GraphNodeShape::Rectangle(_) => ShapeKind::Rectangle,
        GraphNodeShape::Square(_) => ShapeKind::Square,
        GraphNodeShape::Star(_) => ShapeKind::Star,
        GraphNodeShape::NoneShape => ShapeKind::NoneShape,
        GraphNodeShape::Underline(_) => ShapeKind::Underline,
        GraphNodeShape::Cylinder(_) => ShapeKind::Cylinder,
        GraphNodeShape::Note(_) => ShapeKind::Note,
        GraphNodeShape::Tab(_) => ShapeKind::Tab,
        GraphNodeShape::Folder(_) => ShapeKind::Folder,
        GraphNodeShape::Box3d(_) => ShapeKind::Box3d,
        GraphNodeShape::Component(_) => ShapeKind::Component,
        GraphNodeShape::Promoter(_) => ShapeKind::Promoter,
        GraphNodeShape::Cds(_) => ShapeKind::Cds,
        GraphNodeShape::Terminator(_) => ShapeKind::Terminator,
        GraphNodeShape::Utr(_) => ShapeKind::Utr,
        GraphNodeShape::PrimerSite(_) => ShapeKind::PrimerSite,
        GraphNodeShape::RestrictionSite(_) => ShapeKind::RestrictionSite,
        GraphNodeShape::FivePOverhang(_) => ShapeKind::FivePOverhang,
        GraphNodeShape::ThreePOverhang(_) => ShapeKind::ThreePOverhang,
        GraphNodeShape::NOverhang(_) => ShapeKind::NOverhang,
    }
}

/// The outline a shape carries; the `NoneShape` shape carries none.
pub open spec fn shape_outline(s: GraphNodeShape) -> Option<Outline> {
    match s {
        GraphNodeShape::Box(g)
        | GraphNodeShape::Plaintext(g)
        | GraphNodeShape::Plain(g)
        | GraphNodeShape::MSquare(g)
        | GraphNodeShape::Rect(g)
        | GraphNodeShape::Rectangle(g)
        | GraphNodeShape::Square(g)
        | GraphNodeShape::Underline(g) => Some(g.outline()),
        GraphNodeShape::Polygon(g)
        | GraphNodeShape::Ellipse(g)
        | GraphNodeShape::Oval(g)
        | GraphNodeShape::Circle(g)
        | GraphNodeShape::Egg(g)
        | GraphNodeShape::Diamond(g)
        | GraphNodeShape::Trapezium(g)
        | GraphNodeShape::Parallelogram(g)
        | GraphNodeShape::House(g)
        | GraphNodeShape::Pentagon(g)
        | GraphNodeShape::Hexagon(g)
        | GraphNodeShape::Septagon(g)
        | GraphNodeShape::Octagon(g)
        | GraphNodeShape::DoubleCircle(g)
        | GraphNodeShape::DoubleOctagon(g)
        | GraphNodeShape::TripleOctagon(g)
        | GraphNodeShape::InvTrapezium(g)
        | GraphNodeShape::InvHouse(g)
        | GraphNodeShape::MDiamond(g)
        | GraphNodeShape::MCircle(g)
        | GraphNodeShape::Star(g)
        | GraphNodeShape::Cylinder(g)
        | GraphNodeShape::Note(g)
        | GraphNodeShape::Tab(g)
        | GraphNodeShape::Folder(g)
        | GraphNodeShape::Box3d(g)
        | GraphNodeShape::Component(g)
        | GraphNodeShape::Promoter(g)
        | GraphNodeShape::Cds(g)
        | GraphNodeShape::Terminator(g)
        | GraphNodeShape::Utr(g)
        | GraphNodeShape::PrimerSite(g)
        | GraphNodeShape::RestrictionSite(g)
        | GraphNodeShape::FivePOverhang(g)
        | GraphNodeShape::ThreePOverhang(g)
        | GraphNodeShape::NOverhang(g) => Some(g.outline()),
        GraphNodeShape::Point(g) => Some(g.outline()),
        GraphNodeShape::Triangle(g)
        | GraphNodeShape::InvTriangle(g) => Some(g.outline()),
        GraphNodeShape::NoneShape => None,
    }
}

/// The Graphviz name of each shape family.
pub open spec fn kind_dot_name(k: ShapeKind) -> Seq<char> {
    match k {
        ShapeKind::Box => "box"@,
        ShapeKind::Polygon => "polygon"@,
        ShapeKind::Ellipse => "ellipse"@,
        ShapeKind::Oval => "oval"@,
        ShapeKind::Circle => "circle"@,
        ShapeKind::Point => "point"@,
        ShapeKind::Egg => "egg"@,
        ShapeKind::Triangle => "triangle"@,
        ShapeKind::Plaintext => "plaintext"@,
        ShapeKind::Plain => "plain"@,
        ShapeKind::Diamond => "diamond"@,
        ShapeKind::Trapezium => "trapezium"@,
        ShapeKind::Parallelogram => "parallelogram"@,
        ShapeKind::House => "house"@,
        ShapeKind::Pentagon => "pentagon"@,
        ShapeKind::Hexagon => "hexagon"@,
        ShapeKind::Septagon => "septagon"@,
        ShapeKind::Octagon => "octagon"@,
        ShapeKind::DoubleCircle => "doublecircle"@,
        ShapeKind::DoubleOctagon => "doubleoctagon"@,
        ShapeKind::TripleOctagon => "tripleoctagon"@,
        ShapeKind::InvTriangle => "invtriangle"@,
        ShapeKind::InvTrapezium => "invtrapezium"@,
        ShapeKind::InvHouse => "invhouse"@,
        ShapeKind::MDiamond => "Mdiamond"@,
        ShapeKind::MSquare => "Msquare"@,
        ShapeKind::MCircle => "Mcircle"@,
        ShapeKind::Rect => "rect"@,
        ShapeKind::Rectangle => "rectangle"@,
        ShapeKind::Square => "square"@,
        ShapeKind::Star => "star"@,
        ShapeKind::NoneShape => "none"@,
        ShapeKind::Underline => "underline"@,
        ShapeKind::Cylinder => "cylinder"@,
        ShapeKind::Note => "note"@,
        ShapeKind::Tab => "tab"@,
        ShapeKind::Folder => "folder"@,
        ShapeKind::Box3d => "box3d"@,
        ShapeKind::Component => "component"@,
        ShapeKind::Promoter => "promoter"@,
        ShapeKind::Cds => "cds"@,
        ShapeKind::Terminator => "terminator"@,
        ShapeKind::Utr => "utr"@,
        ShapeKind::PrimerSite => "primersite"@,
        ShapeKind::RestrictionSite => "restrictionsite"@,
        ShapeKind::FivePOverhang => "fivepoverhang"@,
        ShapeKind::ThreePOverhang => "threepoverhang"@,
        ShapeKind::NOverhang => "noverhang"@,
    }
}

/// The shape family that a shape name selects, if the name is known.
pub open spec fn kind_for_name(name: Seq<char>) -> Option<ShapeKind> {
    if name == "box"@ {
        Some(ShapeKind::Box)
    } else if name == "polygon"@ {
        Some(ShapeKind::Polygon)
    } else if name == "ellipse"@ {
        Some(ShapeKind::Ellipse)
    } else if name == "oval"@ {
        Some(ShapeKind::Oval)
    } else if name == "circle"@ {
        Some(ShapeKind::Circle)
    } else if name == "point"@ {
        Some(ShapeKind::Point)
    } else if name == "egg"@ {
        Some(ShapeKind::Egg)
    } else if name == "triangle"@ {
        Some(ShapeKind::Triangle)
    } else if name == "plaintext"@ {
        Some(ShapeKind::Plaintext)
    } else if name == "plain"@ {
        Some(ShapeKind::Plain)
    } else if name == "diamond"@ {
        Some(ShapeKind::Diamond)
    } else if name == "trapezium"@ {
        Some(ShapeKind::Trapezium)
    } else if name == "parallelogram"@ {
        Some(ShapeKind::Parallelogram)
    } else if name == "house"@ {
        Some(ShapeKind::House)
    } else if name == "pentagon"@ {
        Some(ShapeKind::Pentagon)
    } else if name == "hexagon"@ {
        Some(ShapeKind::Hexagon)
    } else if name == "septagon"@ {
        Some(ShapeKind::Septagon)
    } else if name == "octagon"@ {
        Some(ShapeKind::Octagon)
    } else if name == "double_circle"@ {
        Some(ShapeKind::DoubleCircle)
    } else if name == "doublecircle"@ {
        Some(ShapeKind::DoubleCircle)
    } else if name == "double_octagon"@ {
        Some(ShapeKind::DoubleOctagon)
    } else if name == "doubleoctagon"@ {
        Some(ShapeKind::DoubleOctagon)
    } else if name == "triple_octagon"@ {
        Some(ShapeKind::TripleOctagon)
    } else if name == "tripleoctagon"@ {
        Some(ShapeKind::TripleOctagon)
    } else if name == "inv_triangle"@ {
        Some(ShapeKind::InvTriangle)
    } else if name == "invtriangle"@ {
        Some(ShapeKind::InvTriangle)
    } else if name == "inv_trapezium"@ {
        Some(ShapeKind::InvTrapezium)
    } else if name == "invtrapezium"@ {
        Some(ShapeKind::InvTrapezium)
    } else if name == "inv_house"@ {
        Some(ShapeKind::InvHouse)
    } else if name == "invhouse"@ {
        Some(ShapeKind::InvHouse)
    } else if name == "m_diamond"@ {
        Some(ShapeKind::MDiamond)
    } else if name == "mdiamond"@ {
        Some(ShapeKind::MDiamond)
    } else if name == "Mdiamond"@ {
        Some(ShapeKind::MDiamond)
    } else if name == "m_square"@ {
        Some(ShapeKind::MSquare)
    } else if name == "msquare"@ {
        Some(ShapeKind::MSquare)
    } else if name == "Msquare"@ {
        Some(ShapeKind::MSquare)
    } else if name == "m_circle"@ {
        Some(ShapeKind::MCircle)
    } else if name == "mcircle"@ {
        Some(ShapeKind::MCircle)
    } else if name == "Mcircle"@ {
        Some(ShapeKind::MCircle)
    } else if name == "rect"@ {
        Some(ShapeKind::Rect)
    } else if name == "rectangle"@ {
        Some(ShapeKind::Rectangle)
    } else if name == "square"@ {
        Some(ShapeKind::Square)
    } else if name == "star"@ {
        Some(ShapeKind::Star)
    } else if name == "none"@ {
        Some(ShapeKind::NoneShape)
    } else if name == "underline"@ {
        Some(ShapeKind::Underline)
    } else if name == "cylinder"@ {
        Some(ShapeKind::Cylinder)
    } else if name == "note"@ {
        Some(ShapeKind::Note)
    } else if name == "tab"@ {
        Some(ShapeKind::Tab)
    } else if name == "folder"@ {
        Some(ShapeKind::Folder)
    } else if name == "box3d"@ {
        Some(ShapeKind::Box3d)
    } else if name == "component"@ {
        Some(ShapeKind::Component)
    } else if name == "promoter"@ {
        Some(ShapeKind::Promoter)
    } else if name == "cds"@ {
        Some(ShapeKind::Cds)
    } else if name == "terminator"@ {
        Some(ShapeKind::Terminator)
    } else if name == "utr"@ {
        Some(ShapeKind::Utr)
    } else if name == "primer_site"@ {
        Some(ShapeKind::PrimerSite)
    } else if name == "primersite"@ {
        Some(ShapeKind::PrimerSite)
    } else if name == "restriction_site"@ {
        Some(ShapeKind::RestrictionSite)
    } else if name == "restrictionsite"@ {
        Some(ShapeKind::RestrictionSite)
    } else if name == "five_p_overhang"@ {
        Some(ShapeKind::FivePOverhang)
    } else if name == "fivepoverhang"@ {
        Some(ShapeKind::FivePOverhang)
    } else if name == "three_p_overhang"@ {
        Some(ShapeKind::ThreePOverhang)
    } else if name == "threepoverhang"@ {
        Some(ShapeKind::ThreePOverhang)
    } else if name == "n_overhang"@ {
        Some(ShapeKind::NOverhang)
    } else if name == "noverhang"@ {
        Some(ShapeKind::NOverhang)
    } else {
        None
    }
}

/// The closed ring of a rectangle, as a rectangle's polygon conversion lists it.
pub open spec fn rect_ring(min: ShapePoint, max: ShapePoint) -> Seq<ShapePoint> {
    seq![
        ShapePoint { x: max.x, y: min.y },
        ShapePoint { x: max.x, y: max.y },
        ShapePoint { x: min.x, y: max.y },
        ShapePoint { x: min.x, y: min.y },
        ShapePoint { x: max.x, y: min.y },
    ]
}

pub open spec fn wide_min() -> ShapePoint {
    pt(-500, -300)
}

pub open spec fn wide_max() -> ShapePoint {
    pt(500, 300)
}

pub open spec fn tall_min() -> ShapePoint {
    pt(-500, -350)
}

pub open spec fn tall_max() -> ShapePoint {
    pt(500, 350)
}

pub open spec fn oval_min() -> ShapePoint {
    pt(-550, -350)
}

pub open spec fn oval_max() -> ShapePoint {
    pt(550, 350)
}

pub open spec fn oval_slim_min() -> ShapePoint {
    pt(-550, -320)
}

pub open spec fn oval_slim_max() -> ShapePoint {
    pt(550, 320)
}

pub open spec fn square_min() -> ShapePoint {
    pt(-500, -500)
}

pub open spec fn square_max() -> ShapePoint {
    pt(500, 500)
}

pub open spec fn egg_ring() -> Seq<ShapePoint> {
    seq![pt(-450, -350), pt(450, -350), pt(500, 50), pt(300, 500), pt(-300, 500), pt(-500, 50), pt(-450, -350)]
}

pub open spec fn diamond_ring() -> Seq<ShapePoint> {
    seq![pt(0, 500), pt(500, 0), pt(0, -500), pt(-500, 0), pt(0, 500)]
}

pub open spec fn trapezium_ring() -> Seq<ShapePoint> {
    seq![pt(-350, 500), pt(350, 500), pt(500, -500), pt(-500, -500), pt(-350, 500)]
}

pub open spec fn parallelogram_ring() -> Seq<ShapePoint> {
    seq![pt(-350, 500), pt(500, 500), pt(350, -500), pt(-500, -500), pt(-350, 500)]
}

pub open spec fn house_ring() -> Seq<ShapePoint> {
    seq![pt(-500, -500), pt(500, -500), pt(500, 200), pt(0, 500), pt(-500, 200), pt(-500, -500)]
}

pub open spec fn pentagon_ring() -> Seq<ShapePoint> {
    seq![pt(0, 500), pt(500, 150), pt(320, -500), pt(-320, -500), pt(-500, 150), pt(0, 500)]
}

pub open spec fn hexagon_ring() -> Seq<ShapePoint> {
    seq![pt(-500, 0), pt(-250, 430), pt(250, 430), pt(500, 0), pt(250, -430), pt(-250, -430), pt(-500, 0)]
}

pub open spec fn septagon_ring() -> Seq<ShapePoint> {
    seq![pt(0, 500), pt(390, 310), pt(490, -110), pt(220, -450), pt(-220, -450), pt(-490, -110), pt(-390, 310), pt(0, 500)]
}

pub open spec fn octagon_ring() -> Seq<ShapePoint> {
    seq![pt(-200, 500), pt(200, 500), pt(500, 200), pt(500, -200), pt(200, -500), pt(-200, -500), pt(-500, -200), pt(-500, 200), pt(-200, 500)]
}

pub open spec fn inv_trapezium_ring() -> Seq<ShapePoint> {
    seq![pt(-500, 500), pt(500, 500), pt(350, -500), pt(-350, -500), pt(-500, 500)]
}

pub open spec fn inv_house_ring() -> Seq<ShapePoint> {
    seq![pt(-500, 500), pt(500, 500), pt(500, -200), pt(0, -500), pt(-500, -200), pt(-500, 500)]
}

pub open spec fn star_ring() -> Seq<ShapePoint> {
    seq![pt(0, 500), pt(120, 160), pt(480, 150), pt(190, -60), pt(300, -420), pt(0, -200), pt(-300, -420), pt(-190, -60), pt(-480, 150), pt(-120, 160), pt(0, 500)]
}

pub open spec fn note_ring() -> Seq<ShapePoint> {
    seq![pt(-500, -500), pt(500, -500), pt(500, 300), pt(300, 500), pt(-500, 500), pt(-500, -500)]
}

pub open spec fn tab_ring() -> Seq<ShapePoint> {
    seq![pt(-500, -500), pt(500, -500), pt(500, 300), pt(100, 300), pt(0, 500), pt(-500, 500), pt(-500, -500)]
}

pub open spec fn folder_ring() -> Seq<ShapePoint> {
    seq![pt(-500, -500), pt(500, -500), pt(500, 250), pt(-100, 250), pt(-200, 500), pt(-500, 500), pt(-500, -500)]
}

pub open spec fn promoter_ring() -> Seq<ShapePoint> {
    seq![pt(-500, -250), pt(250, -250), pt(500, 0), pt(250, 250), pt(-500, 250), pt(-500, -250)]
}

pub open spec fn terminator_ring() -> Seq<ShapePoint> {
    seq![pt(-500, -300), pt(350, -300), pt(500, 0), pt(350, 300), pt(-500, 300), pt(-500, -300)]
}

/// The outline that a shape family has by default. Triangle corners run
/// counter-clockwise.
pub open spec fn default_outline(k: ShapeKind) -> Option<Outline> {
    match k {
        ShapeKind::Box => Some(Outline::Rect(wide_min(), wide_max())),
        ShapeKind::Polygon => Some(Outline::Polygon(rect_ring(wide_min(), wide_max()), Seq::empty())),
        ShapeKind::Ellipse => Some(Outline::Polygon(rect_ring(oval_min(), oval_max()), Seq::empty())),
        ShapeKind::Oval => Some(Outline::Polygon(rect_ring(oval_slim_min(), oval_slim_max()), Seq::empty())),
        ShapeKind::Circle => Some(Outline::Polygon(rect_ring(square_min(), square_max()), Seq::empty())),
        ShapeKind::Point => Some(Outline::Point(pt(0, 0))),
        ShapeKind::Egg => Some(Outline::Polygon(egg_ring(), Seq::empty())),
        ShapeKind::Triangle => Some(Outline::Triangle(pt(-500, -350), pt(500, -350), pt(0, 500))),
        ShapeKind::Plaintext => Some(Outline::Rect(wide_min(), wide_max())),
        ShapeKind::Plain => Some(Outline::Rect(wide_min(), wide_max())),
        ShapeKind::Diamond => Some(Outline::Polygon(diamond_ring(), Seq::empty())),
        ShapeKind::Trapezium => Some(Outline::Polygon(trapezium_ring(), Seq::empty())),
        ShapeKind::Parallelogram => Some(Outline::Polygon(parallelogram_ring(), Seq::empty())),
        ShapeKind::House => Some(Outline::Polygon(house_ring(), Seq::empty())),
        ShapeKind::Pentagon => Some(Outline::Polygon(pentagon_ring(), Seq::empty())),
        ShapeKind::Hexagon => Some(Outline::Polygon(hexagon_ring(), Seq::empty())),
        ShapeKind::Septagon => Some(Outline::Polygon(septagon_ring(), Seq::empty())),
        ShapeKind::Octagon => Some(Outline::Polygon(octagon_ring(), Seq::empty())),
        ShapeKind::DoubleCircle => Some(Outline::Polygon(rect_ring(square_min(), square_max()), Seq::empty())),
        ShapeKind::DoubleOctagon => Some(Outline::Polygon(octagon_ring(), Seq::empty())),
        ShapeKind::TripleOctagon => Some(Outline::Polygon(octagon_ring(), Seq::empty())),
        ShapeKind::InvTriangle => Some(Outline::Triangle(pt(0, -500), pt(500, 350), pt(-500, 350))),
        ShapeKind::InvTrapezium => Some(Outline::Polygon(inv_trapezium_ring(), Seq::empty())),
        ShapeKind::InvHouse => Some(Outline::Polygon(inv_house_ring(), Seq::empty())),
        ShapeKind::MDiamond => Some(Outline::Polygon(diamond_ring(), Seq::empty())),
        ShapeKind::MSquare => Some(Outline::Rect(square_min(), square_max())),
        ShapeKind::MCircle => Some(Outline::Polygon(rect_ring(square_min(), square_max()), Seq::empty())),
        ShapeKind::Rect => Some(Outline::Rect(wide_min(), wide_max())),
        ShapeKind::Rectangle => Some(Outline::Rect(wide_min(), wide_max())),
        ShapeKind::Square => Some(Outline::Rect(square_min(), square_max())),
        ShapeKind::Star => Some(Outline::Polygon(star_ring(), Seq::empty())),
        ShapeKind::NoneShape => None,
        ShapeKind::Underline => Some(Outline::Rect(wide_min(), wide_max())),
        ShapeKind::Cylinder => Some(Outline::Polygon(rect_ring(tall_min(), tall_max()), Seq::empty())),
        ShapeKind::Note => Some(Outline::Polygon(note_ring(), Seq::empty())),
        ShapeKind::Tab => Some(Outline::Polygon(tab_ring(), Seq::empty())),
        ShapeKind::Folder => Some(Outline::Polygon(folder_ring(), Seq::empty())),
        ShapeKind::Box3d => Some(Outline::Polygon(rect_ring(wide_min(), wide_max()), Seq::empty())),
        ShapeKind::Component => Some(Outline::Polygon(rect_ring(wide_min(), wide_max()), Seq::empty())),
        ShapeKind::Promoter => Some(Outline::Polygon(promoter_ring(), Seq::empty())),
        ShapeKind::Cds => Some(Outline::Polygon(rect_ring(wide_min(), wide_max()), Seq::empty())),
        ShapeKind::Terminator => Some(Outline::Polygon(terminator_ring(), Seq::empty())),
        ShapeKind::Utr => Some(Outline::Polygon(rect_ring(wide_min(), wide_max()), Seq::empty())),
        ShapeKind::PrimerSite => Some(Outline::Polygon(rect_ring(wide_min(), wide_max()), Seq::empty())),
        ShapeKind::RestrictionSite => Some(Outline::Polygon(rect_ring(wide_min(), wide_max()), Seq::empty())),
        ShapeKind::FivePOverhang => Some(Outline::Polygon(rect_ring(wide_min(), wide_max()), Seq::empty())),
        ShapeKind::ThreePOverhang => Some(Outline::Polygon(rect_ring(wide_min(), wide_max()), Seq::empty())),
        ShapeKind::NOverhang => Some(Outline::Polygon(rect_ring(wide_min(), wide_max()), Seq::empty())),
    }
}
fn wide_rect() -> (r: ShapeRect)
    ensures
        r.outline() == Outline::Rect(wide_min(), wide_max()),
{
    ShapeRect::new(ShapePoint { x: -500, y: -300 }, ShapePoint { x: 500, y: 300 })
}

fn tall_rect() -> (r: ShapeRect)
    ensures
        r.outline() == Outline::Rect(tall_min(), tall_max()),
{
    ShapeRect::new(ShapePoint { x: -500, y: -350 }, ShapePoint { x: 500, y: 350 })
}

fn oval_rect() -> (r: ShapeRect)
    ensures
        r.outline() == Outline::Rect(oval_min(), oval_max()),
{
    ShapeRect::new(ShapePoint { x: -550, y: -350 }, ShapePoint { x: 550, y: 350 })
}

fn oval_slim_rect() -> (r: ShapeRect)
    ensures
        r.outline() == Outline::Rect(oval_slim_min(), oval_slim_max()),
{
    ShapeRect::new(ShapePoint { x: -550, y: -320 }, ShapePoint { x: 550, y: 320 })
}

fn square_rect() -> (r: ShapeRect)
    ensures
        r.outline() == Outline::Rect(square_min(), square_max()),
{
    ShapeRect::new(ShapePoint { x: -500, y: -500 }, ShapePoint { x: 500, y: 500 })
}

fn egg_points() -> (v: Vec<ShapePoint>)
    ensures
        v@ == egg_ring(),
{
    let mut v: Vec<ShapePoint> = Vec::new();
    v.push(ShapePoint { x: -450, y: -350 });
    v.push(ShapePoint { x: 450, y: -350 });
    v.push(ShapePoint { x: 500, y: 50 });
    v.push(ShapePoint { x: 300, y: 500 });
    v.push(ShapePoint { x: -300, y: 500 });
    v.push(ShapePoint { x: -500, y: 50 });
    v.push(ShapePoint { x: -450, y: -350 });
    v
}

fn diamond_points() -> (v: Vec<ShapePoint>)
    ensures
        v@ == diamond_ring(),
{
    let mut v: Vec<ShapePoint> = Vec::new();
    v.push(ShapePoint { x: 0, y: 500 });
    v.push(ShapePoint { x: 500, y: 0 });
    v.push(ShapePoint { x: 0, y: -500 });
    v.push(ShapePoint { x: -500, y: 0 });
    v.push(ShapePoint { x: 0, y: 500 });
    v
}

fn trapezium_points() -> (v: Vec<ShapePoint>)
    ensures
        v@ == trapezium_ring(),
{
    let mut v: Vec<ShapePoint> = Vec::new();
    v.push(ShapePoint { x: -350, y: 500 });
    v.push(ShapePoint { x: 350, y: 500 });
    v.push(ShapePoint { x: 500, y: -500 });
    v.push(ShapePoint { x: -500, y: -500 });
    v.push(ShapePoint { x: -350, y: 500 });
    v
}

fn parallelogram_points() -> (v: Vec<ShapePoint>)
    ensures
        v@ == parallelogram_ring(),
{
    let mut v: Vec<ShapePoint> = Vec::new();
    v.push(ShapePoint { x: -350, y: 500 });
    v.push(ShapePoint { x: 500, y: 500 });
    v.push(ShapePoint { x: 350, y: -500 });
    v.push(ShapePoint { x: -500, y: -500 });
    v.push(ShapePoint { x: -350, y: 500 });
    v
}

fn house_points() -> (v: Vec<ShapePoint>)
    ensures
        v@ == house_ring(),
{
    let mut v: Vec<ShapePoint> = Vec::new();
    v.push(ShapePoint { x: -500, y: -500 });
    v.push(ShapePoint { x: 500, y: -500 });
    v.push(ShapePoint { x: 500, y: 200 });
    v.push(ShapePoint { x: 0, y: 500 });
    v.push(ShapePoint { x: -500, y: 200 });
    v.push(ShapePoint { x: -500, y: -500 });
    v
}

fn pentagon_points() -> (v: Vec<ShapePoint>)
    ensures
        v@ == pentagon_ring(),
{
    let mut v: Vec<ShapePoint> = Vec::new();
    v.push(ShapePoint { x: 0, y: 500 });
    v.push(ShapePoint { x: 500, y: 150 });
    v.push(ShapePoint { x: 320, y: -500 });
    v.push(ShapePoint { x: -320, y: -500 });
    v.push(ShapePoint { x: -500, y: 150 });
    v.push(ShapePoint { x: 0, y: 500 });
    v
}

fn hexagon_points() -> (v: Vec<ShapePoint>)
    ensures
        v@ == hexagon_ring(),
{
    let mut v: Vec<ShapePoint> = Vec::new();
    v.push(ShapePoint { x: -500, y: 0 });
    v.push(ShapePoint { x: -250, y: 430 });
    v.push(ShapePoint { x: 250, y: 430 });
    v.push(ShapePoint { x: 500, y: 0 });
    v.push(ShapePoint { x: 250, y: -430 });
    v.push(ShapePoint { x: -250, y: -430 });
    v.push(ShapePoint { x: -500, y: 0 });
    v
}

fn septagon_points() -> (v: Vec<ShapePoint>)
    ensures
        v@ == septagon_ring(),
{
    let mut v: Vec<ShapePoint> = Vec::new();
    v.push(ShapePoint { x: 0, y: 500 });
    v.push(ShapePoint { x: 390, y: 310 });
    v.push(ShapePoint { x: 490, y: -110 });
    v.push(ShapePoint { x: 220, y: -450 });
    v.push(ShapePoint { x: -220, y: -450 });
    v.push(ShapePoint { x: -490, y: -110 });
    v.push(ShapePoint { x: -390, y: 310 });
    v.push(ShapePoint { x: 0, y: 500 });
    v
}

fn octagon_points() -> (v: Vec<ShapePoint>)
    ensures
        v@ == octagon_ring(),
{
    let mut v: Vec<ShapePoint> = Vec::new();
    v.push(ShapePoint { x: -200, y: 500 });
    v.push(ShapePoint { x: 200, y: 500 });
    v.push(ShapePoint { x: 500, y: 200 });
    v.push(ShapePoint { x: 500, y: -200 });
    v.push(ShapePoint { x: 200, y: -500 });
    v.push(ShapePoint { x: -200, y: -500 });
    v.push(ShapePoint { x: -500, y: -200 });
    v.push(ShapePoint { x: -500, y: 200 });
    v.push(ShapePoint { x: -200, y: 500 });
    v
}

fn inv_trapezium_points() -> (v: Vec<ShapePoint>)
    ensures
        v@ == inv_trapezium_ring(),
{
    let mut v: Vec<ShapePoint> = Vec::new();
    v.push(ShapePoint { x: -500, y: 500 });
    v.push(ShapePoint { x: 500, y: 500 });
    v.push(ShapePoint { x: 350, y: -500 });
    v.push(ShapePoint { x: -350, y: -500 });
    v.push(ShapePoint { x: -500, y: 500 });
    v
}

fn inv_house_points() -> (v: Vec<ShapePoint>)
    ensures
        v@ == inv_house_ring(),
{
    let mut v: Vec<ShapePoint> = Vec::new();
    v.push(ShapePoint { x: -500, y: 500 });
    v.push(ShapePoint { x: 500, y: 500 });
    v.push(ShapePoint { x: 500, y: -200 });
    v.push(ShapePoint { x: 0, y: -500 });
    v.push(ShapePoint { x: -500, y: -200 });
    v.push(ShapePoint { x: -500, y: 500 });
    v
}

fn star_points() -> (v: Vec<ShapePoint>)
    ensures
        v@ == star_ring(),
{
    let mut v: Vec<ShapePoint> = Vec::new();
    v.push(ShapePoint { x: 0, y: 500 });
    v.push(ShapePoint { x: 120, y: 160 });
    v.push(ShapePoint { x: 480, y: 150 });
    v.push(ShapePoint { x: 190, y: -60 });
    v.push(ShapePoint { x: 300, y: -420 });
    v.push(ShapePoint { x: 0, y: -200 });
    v.push(ShapePoint { x: -300, y: -420 });
    v.push(ShapePoint { x: -190, y: -60 });
    v.push(ShapePoint { x: -480, y: 150 });
    v.push(ShapePoint { x: -120, y: 160 });
    v.push(ShapePoint { x: 0, y: 500 });
    v
}

fn note_points() -> (v: Vec<ShapePoint>)
    ensures
        v@ == note_ring(),
{
    let mut v: Vec<ShapePoint> = Vec::new();
    v.push(ShapePoint { x: -500, y: -500 });
    v.push(ShapePoint { x: 500, y: -500 });
    v.push(ShapePoint { x: 500, y: 300 });
    v.push(ShapePoint { x: 300, y: 500 });
    v.push(ShapePoint { x: -500, y: 500 });
    v.push(ShapePoint { x: -500, y: -500 });
    v
}

fn tab_points() -> (v: Vec<ShapePoint>)
    ensures
        v@ == tab_ring(),
{
    let mut v: Vec<ShapePoint> = Vec::new();
    v.push(ShapePoint { x: -500, y: -500 });
    v.push(ShapePoint { x: 500, y: -500 });
    v.push(ShapePoint { x: 500, y: 300 });
    v.push(ShapePoint { x: 100, y: 300 });
    v.push(ShapePoint { x: 0, y: 500 });
    v.push(ShapePoint { x: -500, y: 500 });
    v.push(ShapePoint { x: -500, y: -500 });
    v
}

fn folder_points() -> (v: Vec<ShapePoint>)
    ensures
        v@ == folder_ring(),
{
    let mut v: Vec<ShapePoint> = Vec::new();
    v.push(ShapePoint { x: -500, y: -500 });
    v.push(ShapePoint { x: 500, y: -500 });
    v.push(ShapePoint { x: 500, y: 250 });
    v.push(ShapePoint { x: -100, y: 250 });
    v.push(ShapePoint { x: -200, y: 500 });
    v.push(ShapePoint { x: -500, y: 500 });
    v.push(ShapePoint { x: -500, y: -500 });
    v
}

fn promoter_points() -> (v: Vec<ShapePoint>)
    ensures
        v@ == promoter_ring(),
{
    let mut v: Vec<ShapePoint> = Vec::new();
    v.push(ShapePoint { x: -500, y: -250 });
    v.push(ShapePoint { x: 250, y: -250 });
    v.push(ShapePoint { x: 500, y: 0 });
    v.push(ShapePoint { x: 250, y: 250 });
    v.push(ShapePoint { x: -500, y: 250 });
    v.push(ShapePoint { x: -500, y: -250 });
    v
}

fn terminator_points() -> (v: Vec<ShapePoint>)
    ensures
        v@ == terminator_ring(),
{
    let mut v: Vec<ShapePoint> = Vec::new();
    v.push(ShapePoint { x: -500, y: -300 });
    v.push(ShapePoint { x: 350, y: -300 });
    v.push(ShapePoint { x: 500, y: 0 });
    v.push(ShapePoint { x: 350, y: 300 });
    v.push(ShapePoint { x: -500, y: 300 });
    v.push(ShapePoint { x: -500, y: -300 });
    v
}

impl GraphNodeShape {
    /// The shape that a family has by default.
    pub fn default_for_kind(kind: ShapeKind) -> (s: GraphNodeShape)
        ensures
            shape_kind(s) == kind,
            shape_outline(s) == default_outline(kind),
    {
        match kind {
            ShapeKind::Box => GraphNodeShape::Box(wide_rect()),
            ShapeKind::Polygon => GraphNodeShape::Polygon(wide_rect().to_polygon()),
            ShapeKind::Ellipse => GraphNodeShape::Ellipse(oval_rect().to_polygon()),
            ShapeKind::Oval => GraphNodeShape::Oval(oval_slim_rect().to_polygon()),
            ShapeKind::Circle => GraphNodeShape::Circle(square_rect().to_polygon()),
            ShapeKind::Point => GraphNodeShape::Point(ShapePoint { x: 0, y: 0 }),
            ShapeKind::Egg => GraphNodeShape::Egg(ShapePolygon::from_ring(egg_points())),
            ShapeKind::Triangle => GraphNodeShape::Triangle(ShapeTriangle(ShapePoint { x: -500, y: -350 }, ShapePoint { x: 500, y: -350 }, ShapePoint { x: 0, y: 500 })),
            ShapeKind::Plaintext => GraphNodeShape::Plaintext(wide_rect()),
            ShapeKind::Plain => GraphNodeShape::Plain(wide_rect()),
            ShapeKind::Diamond => GraphNodeShape::Diamond(ShapePolygon::from_ring(diamond_points())),
            ShapeKind::Trapezium => GraphNodeShape::Trapezium(ShapePolygon::from_ring(trapezium_points())),
            ShapeKind::Parallelogram => GraphNodeShape::Parallelogram(ShapePolygon::from_ring(parallelogram_points())),
            ShapeKind::House => GraphNodeShape::House(ShapePolygon::from_ring(house_points())),
            ShapeKind::Pentagon => GraphNodeShape::Pentagon(ShapePolygon::from_ring(pentagon_points())),
            ShapeKind::Hexagon => GraphNodeShape::Hexagon(ShapePolygon::from_ring(hexagon_points())),
            ShapeKind::Septagon => GraphNodeShape::Septagon(ShapePolygon::from_ring(septagon_points())),
            ShapeKind::Octagon => GraphNodeShape::Octagon(ShapePolygon::from_ring(octagon_points())),
            ShapeKind::DoubleCircle => GraphNodeShape::DoubleCircle(square_rect().to_polygon()),
            ShapeKind::DoubleOctagon => GraphNodeShape::DoubleOctagon(ShapePolygon::from_ring(octagon_points())),
            ShapeKind::TripleOctagon => GraphNodeShape::TripleOctagon(ShapePolygon::from_ring(octagon_points())),
            ShapeKind::InvTriangle => GraphNodeShape::InvTriangle(ShapeTriangle(ShapePoint { x: 0, y: -500 }, ShapePoint { x: 500, y: 350 }, ShapePoint { x: -500, y: 350 })),
            ShapeKind::InvTrapezium => GraphNodeShape::InvTrapezium(ShapePolygon::from_ring(inv_trapezium_points())),
            ShapeKind::InvHouse => GraphNodeShape::InvHouse(ShapePolygon::from_ring(inv_house_points())),
            ShapeKind::MDiamond => GraphNodeShape::MDiamond(ShapePolygon::from_ring(diamond_points())),
            ShapeKind::MSquare => GraphNodeShape::MSquare(square_rect()),
            ShapeKind::MCircle => GraphNodeShape::MCircle(square_rect().to_polygon()),
            ShapeKind::Rect => GraphNodeShape::Rect(wide_rect()),
            ShapeKind::Rectangle => GraphNodeShape::Rectangle(wide_rect()),
            ShapeKind::Square => GraphNodeShape::Square(square_rect()),
            ShapeKind::Star => GraphNodeShape::Star(ShapePolygon::from_ring(star_points())),
            ShapeKind::NoneShape => GraphNodeShape::NoneShape,
            ShapeKind::Underline => GraphNodeShape::Underline(wide_rect()),
            ShapeKind::Cylinder => GraphNodeShape::Cylinder(tall_rect().to_polygon()),
            ShapeKind::Note => GraphNodeShape::Note(ShapePolygon::from_ring(note_points())),
            ShapeKind::Tab => GraphNodeShape::Tab(ShapePolygon::from_ring(tab_points())),
            ShapeKind::Folder => GraphNodeShape::Folder(ShapePolygon::from_ring(folder_points())),
            ShapeKind::Box3d => GraphNodeShape::Box3d(wide_rect().to_polygon()),
            ShapeKind::Component => GraphNodeShape::Component(wide_rect().to_polygon()),
            ShapeKind::Promoter => GraphNodeShape::Promoter(ShapePolygon::from_ring(promoter_points())),
            ShapeKind::Cds => GraphNodeShape::Cds(wide_rect().to_polygon()),
            ShapeKind::Terminator => GraphNodeShape::Terminator(ShapePolygon::from_ring(terminator_points())),
            ShapeKind::Utr => GraphNodeShape::Utr(wide_rect().to_polygon()),
            ShapeKind::PrimerSite => GraphNodeShape::PrimerSite(wide_rect().to_polygon()),
            ShapeKind::RestrictionSite => GraphNodeShape::RestrictionSite(wide_rect().to_polygon()),
            ShapeKind::FivePOverhang => GraphNodeShape::FivePOverhang(wide_rect().to_polygon()),
            ShapeKind::ThreePOverhang => GraphNodeShape::ThreePOverhang(wide_rect().to_polygon()),
            ShapeKind::NOverhang => GraphNodeShape::NOverhang(wide_rect().to_polygon()),
        }
    }

    /// The shape family of this shape.
    pub fn kind(&self) -> (k: ShapeKind)
        ensures
            k == shape_kind(*self),
    {
        match self {
            GraphNodeShape::Box(_) => ShapeKind::Box,
            GraphNodeShape::Polygon(_) => ShapeKind::Polygon,
            GraphNodeShape::Ellipse(_) => ShapeKind::Ellipse,
            GraphNodeShape::Oval(_) => ShapeKind::Oval,
            GraphNodeShape::Circle(_) => ShapeKind::Circle,
            GraphNodeShape::Point(_) => ShapeKind::Point,
            GraphNodeShape::Egg(_) => ShapeKind::Egg,
            GraphNodeShape::Triangle(_) => ShapeKind::Triangle,
            GraphNodeShape::Plaintext(_) => ShapeKind::Plaintext,
            GraphNodeShape::Plain(_) => ShapeKind::Plain,
            GraphNodeShape::Diamond(_) => ShapeKind::Diamond,
            GraphNodeShape::Trapezium(_) => ShapeKind::Trapezium,
            GraphNodeShape::Parallelogram(_) => ShapeKind::Parallelogram,
            GraphNodeShape::House(_) => ShapeKind::House,
            GraphNodeShape::Pentagon(_) => ShapeKind::Pentagon,
            GraphNodeShape::Hexagon(_) => ShapeKind::Hexagon,
            GraphNodeShape::Septagon(_) => ShapeKind::Septagon,
            GraphNodeShape::Octagon(_) => ShapeKind::Octagon,
            GraphNodeShape::DoubleCircle(_) => ShapeKind::DoubleCircle,
            GraphNodeShape::DoubleOctagon(_) => ShapeKind::DoubleOctagon,
            GraphNodeShape::TripleOctagon(_) => ShapeKind::TripleOctagon,
            GraphNodeShape::InvTriangle(_) => ShapeKind::InvTriangle,
            GraphNodeShape::InvTrapezium(_) => ShapeKind::InvTrapezium,
            GraphNodeShape::InvHouse(_) => ShapeKind::InvHouse,
            GraphNodeShape::MDiamond(_) => ShapeKind::MDiamond,
            GraphNodeShape::MSquare(_) => ShapeKind::MSquare,
            GraphNodeShape::MCircle(_) => ShapeKind::MCircle,
            GraphNodeShape::Rect(_) => ShapeKind::Rect,
            GraphNodeShape::Rectangle(_) => ShapeKind::Rectangle,
            GraphNodeShape::Square(_) => ShapeKind::Square,
            GraphNodeShape::Star(_) => ShapeKind::Star,
            GraphNodeShape::NoneShape => ShapeKind::NoneShape,
            GraphNodeShape::Underline(_) => ShapeKind::Underline,
            GraphNodeShape::Cylinder(_) => ShapeKind::Cylinder,
            GraphNodeShape::Note(_) => ShapeKind::Note,
            GraphNodeShape::Tab(_) => ShapeKind::Tab,
            GraphNodeShape::Folder(_) => ShapeKind::Folder,
            GraphNodeShape::Box3d(_) => ShapeKind::Box3d,
            GraphNodeShape::Component(_) => ShapeKind::Component,
            GraphNodeShape::Promoter(_) => ShapeKind::Promoter,
            GraphNodeShape::Cds(_) => ShapeKind::Cds,
            GraphNodeShape::Terminator(_) => ShapeKind::Terminator,
            GraphNodeShape::Utr(_) => ShapeKind::Utr,
            GraphNodeShape::PrimerSite(_) => ShapeKind::PrimerSite,
            GraphNodeShape::RestrictionSite(_) => ShapeKind::RestrictionSite,
            GraphNodeShape::FivePOverhang(_) => ShapeKind::FivePOverhang,
            GraphNodeShape::ThreePOverhang(_) => ShapeKind::ThreePOverhang,
            GraphNodeShape::NOverhang(_) => ShapeKind::NOverhang,
        }
    }
}

impl ShapeKind {
    /// The Graphviz name of this shape family.
    pub fn dot_name(self) -> (r: &'static str)
        ensures
            r@ == kind_dot_name(self),
    {
        match self {
            ShapeKind::Box => "box",
            ShapeKind::Polygon => "polygon",
            ShapeKind::Ellipse => "ellipse",
            ShapeKind::Oval => "oval",
            ShapeKind::Circle => "circle",
            ShapeKind::Point => "point",
            ShapeKind::Egg => "egg",
            ShapeKind::Triangle => "triangle",
            ShapeKind::Plaintext => "plaintext",
            ShapeKind::Plain => "plain",
            ShapeKind::Diamond => "diamond",
            ShapeKind::Trapezium => "trapezium",
            ShapeKind::Parallelogram => "parallelogram",
            ShapeKind::House => "house",
            ShapeKind::Pentagon => "pentagon",
            ShapeKind::Hexagon => "hexagon",
            ShapeKind::Septagon => "septagon",
            ShapeKind::Octagon => "octagon",
            ShapeKind::DoubleCircle => "doublecircle",
            ShapeKind::DoubleOctagon => "doubleoctagon",
            ShapeKind::TripleOctagon => "tripleoctagon",
            ShapeKind::InvTriangle => "invtriangle",
            ShapeKind::InvTrapezium => "invtrapezium",
            ShapeKind::InvHouse => "invhouse",
            ShapeKind::MDiamond => "Mdiamond",
            ShapeKind::MSquare => "Msquare",
            ShapeKind::MCircle => "Mcircle",
            ShapeKind::Rect => "rect",
            ShapeKind::Rectangle => "rectangle",
            ShapeKind::Square => "square",
            ShapeKind::Star => "star",
            ShapeKind::NoneShape => "none",
            ShapeKind::Underline => "underline",
            ShapeKind::Cylinder => "cylinder",
            ShapeKind::Note => "note",
            ShapeKind::Tab => "tab",
            ShapeKind::Folder => "folder",
            ShapeKind::Box3d => "box3d",
            ShapeKind::Component => "component",
            ShapeKind::Promoter => "promoter",
            ShapeKind::Cds => "cds",
            ShapeKind::Terminator => "terminator",
            ShapeKind::Utr => "utr",
            ShapeKind::PrimerSite => "primersite",
            ShapeKind::RestrictionSite => "restrictionsite",
            ShapeKind::FivePOverhang => "fivepoverhang",
            ShapeKind::ThreePOverhang => "threepoverhang",
            ShapeKind::NOverhang => "noverhang",
        }
    }

    /// The shape family that `name` selects, if the name is known.
    pub fn for_name(name: &str) -> (r: Option<ShapeKind>)
        ensures
            r == kind_for_name(name@),
    {
        if str_eq(name, "box") {
            Some(ShapeKind::Box)
        } else if str_eq(name, "polygon") {
            Some(ShapeKind::Polygon)
        } else if str_eq(name, "ellipse") {
            Some(ShapeKind::Ellipse)
        } else if str_eq(name, "oval") {
            Some(ShapeKind::Oval)
        } else if str_eq(name, "circle") {
            Some(ShapeKind::Circle)
        } else if str_eq(name, "point") {
            Some(ShapeKind::Point)
        } else if str_eq(name, "egg") {
            Some(ShapeKind::Egg)
        } else if str_eq(name, "triangle") {
            Some(ShapeKind::Triangle)
        } else if str_eq(name, "plaintext") {
            Some(ShapeKind::Plaintext)
        } else if str_eq(name, "plain") {
            Some(ShapeKind::Plain)
        } else if str_eq(name, "diamond") {
            Some(ShapeKind::Diamond)
        } else if str_eq(name, "trapezium") {
            Some(ShapeKind::Trapezium)
        } else if str_eq(name, "parallelogram") {
            Some(ShapeKind::Parallelogram)
        } else if str_eq(name, "house") {
            Some(ShapeKind::House)
        } else if str_eq(name, "pentagon") {
            Some(ShapeKind::Pentagon)
        } else if str_eq(name, "hexagon") {
            Some(ShapeKind::Hexagon)
        } else if str_eq(name, "septagon") {
            Some(ShapeKind::Septagon)
        } else if str_eq(name, "octagon") {
            Some(ShapeKind::Octagon)
        } else if str_eq(name, "double_circle") {
            Some(ShapeKind::DoubleCircle)
        } else if str_eq(name, "doublecircle") {
            Some(ShapeKind::DoubleCircle)
        } else if str_eq(name, "double_octagon") {
            Some(ShapeKind::DoubleOctagon)
        } else if str_eq(name, "doubleoctagon") {
            Some(ShapeKind::DoubleOctagon)
        } else if str_eq(name, "triple_octagon") {
            Some(ShapeKind::TripleOctagon)
        } else if str_eq(name, "tripleoctagon") {
            Some(ShapeKind::TripleOctagon)
        } else if str_eq(name, "inv_triangle") {
            Some(ShapeKind::InvTriangle)
        } else if str_eq(name, "invtriangle") {
            Some(ShapeKind::InvTriangle)
        } else if str_eq(name, "inv_trapezium") {
            Some(ShapeKind::InvTrapezium)
        } else if str_eq(name, "invtrapezium") {
            Some(ShapeKind::InvTrapezium)
        } else if str_eq(name, "inv_house") {
            Some(ShapeKind::InvHouse)
        } else if str_eq(name, "invhouse") {
            Some(ShapeKind::InvHouse)
        } else if str_eq(name, "m_diamond") {
            Some(ShapeKind::MDiamond)
        } else if str_eq(name, "mdiamond") {
            Some(ShapeKind::MDiamond)
        } else if str_eq(name, "Mdiamond") {
            Some(ShapeKind::MDiamond)
        } else if str_eq(name, "m_square") {
            Some(ShapeKind::MSquare)
        } else if str_eq(name, "msquare") {
            Some(ShapeKind::MSquare)
        } else if str_eq(name, "Msquare") {
            Some(ShapeKind::MSquare)
        } else if str_eq(name, "m_circle") {
            Some(ShapeKind::MCircle)
        } else if str_eq(name, "mcircle") {
            Some(ShapeKind::MCircle)
        } else if str_eq(name, "Mcircle") {
            Some(ShapeKind::MCircle)
        } else if str_eq(name, "rect") {
            Some(ShapeKind::Rect)
        } else if str_eq(name, "rectangle") {
            Some(ShapeKind::Rectangle)
        } else if str_eq(name, "square") {
            Some(ShapeKind::Square)
        } else if str_eq(name, "star") {
            Some(ShapeKind::Star)
        } else if str_eq(name, "none") {
            Some(ShapeKind::NoneShape)
        } else if str_eq(name, "underline") {
            Some(ShapeKind::Underline)
        } else if str_eq(name, "cylinder") {
            Some(ShapeKind::Cylinder)
        } else if str_eq(name, "note") {
            Some(ShapeKind::Note)
        } else if str_eq(name, "tab") {
            Some(ShapeKind::Tab)
        } else if str_eq(name, "folder") {
            Some(ShapeKind::Folder)
        } else if str_eq(name, "box3d") {
            Some(ShapeKind::Box3d)
        } else if str_eq(name, "component") {
            Some(ShapeKind::Component)
        } else if str_eq(name, "promoter") {
            Some(ShapeKind::Promoter)
        } else if str_eq(name, "cds") {
            Some(ShapeKind::Cds)
        } else if str_eq(name, "terminator") {
            Some(ShapeKind::Terminator)
        } else if str_eq(name, "utr") {
            Some(ShapeKind::Utr)
        } else if str_eq(name, "primer_site") {
            Some(ShapeKind::PrimerSite)
        } else if str_eq(name, "primersite") {
            Some(ShapeKind::PrimerSite)
        } else if str_eq(name, "restriction_site") {
            Some(ShapeKind::RestrictionSite)
        } else if str_eq(name, "restrictionsite") {
            Some(ShapeKind::RestrictionSite)
        } else if str_eq(name, "five_p_overhang") {
            Some(ShapeKind::FivePOverhang)
        } else if str_eq(name, "fivepoverhang") {
            Some(ShapeKind::FivePOverhang)
        } else if str_eq(name, "three_p_overhang") {
            Some(ShapeKind::ThreePOverhang)
        } else if str_eq(name, "threepoverhang") {
            Some(ShapeKind::ThreePOverhang)
        } else if str_eq(name, "n_overhang") {
            Some(ShapeKind::NOverhang)
        } else if str_eq(name, "noverhang") {
            Some(ShapeKind::NOverhang)
        } else {
            None
        }
    }
}

/// The CSS class name of each shape family: its Graphviz name, in lower case
/// for the `M` shapes.
pub open spec fn kind_css_class(k: ShapeKind) -> Seq<char> {
    match k {
        ShapeKind::MDiamond => "mdiamond"@,
        ShapeKind::MSquare => "msquare"@,
        ShapeKind::MCircle => "mcircle"@,
        _ => kind_dot_name(k),
    }
}

/// The geometry that a shape is drawn with on row `row`; the `NoneShape` shape has
/// none.
pub open spec fn shape_geometry_on_row(s: GraphNodeShape, row: usize, g: Option<GraphNodeGeometry>) -> bool {
    match shape_outline(s) {
        None => g is None,
        Some(o) => g matches Some(geo) && geo.shape.outline() == o && geo.row == row
            && geo.width == outline_extent(o).0 && geo.height == outline_extent(o).1,
    }
}

impl GraphNodeShape {
    /// The default shape for a Graphviz shape name, or `None` for an unknown
    /// name.
    pub fn default_for_name(name: &str) -> (r: Option<GraphNodeShape>)
        ensures
            match kind_for_name(name@) {
                None => r is None,
                Some(k) => r matches Some(s) && shape_kind(s) == k && shape_outline(s)
                    == default_outline(k),
            },
    {
        match ShapeKind::for_name(name) {
            Some(kind) => Some(GraphNodeShape::default_for_kind(kind)),
            None => None,
        }
    }

    /// The geometry of this shape on row 0.
    pub fn geometry(&self) -> (r: Option<GraphNodeGeometry>)
        ensures
            shape_geometry_on_row(*self, 0, r),
    {
        self.geometry_for_row(0)
    }

    /// The geometry of this shape on layout row `row`, measured by its
    /// bounding box; the `NoneShape` shape has no geometry.
    pub fn geometry_for_row(&self, row: usize) -> (r: Option<GraphNodeGeometry>)
        ensures
            shape_geometry_on_row(*self, row, r),
    {
        let g = match self {
            GraphNodeShape::Box(r) | GraphNodeShape::Plaintext(r) | GraphNodeShape::Plain(r)
            | GraphNodeShape::MSquare(r) | GraphNodeShape::Rect(r) | GraphNodeShape::Rectangle(r)
            | GraphNodeShape::Square(r) | GraphNodeShape::Underline(r) => ShapeGeometry::Rect(*r),
            GraphNodeShape::Point(p) => ShapeGeometry::Point(*p),
            GraphNodeShape::Triangle(t) | GraphNodeShape::InvTriangle(t) => ShapeGeometry::Triangle(*t),
            GraphNodeShape::NoneShape => {
                return None;
            },
            GraphNodeShape::Polygon(p) | GraphNodeShape::Ellipse(p) | GraphNodeShape::Oval(p)
            | GraphNodeShape::Circle(p) | GraphNodeShape::Egg(p) | GraphNodeShape::Diamond(p)
            | GraphNodeShape::Trapezium(p) | GraphNodeShape::Parallelogram(p)
            | GraphNodeShape::House(p) | GraphNodeShape::Pentagon(p) | GraphNodeShape::Hexagon(p)
            | GraphNodeShape::Septagon(p) | GraphNodeShape::Octagon(p)
            | GraphNodeShape::DoubleCircle(p) | GraphNodeShape::DoubleOctagon(p)
            | GraphNodeShape::TripleOctagon(p) | GraphNodeShape::InvTrapezium(p)
            | GraphNodeShape::InvHouse(p) | GraphNodeShape::MDiamond(p) | GraphNodeShape::MCircle(p)
            | GraphNodeShape::Star(p) | GraphNodeShape::Cylinder(p) | GraphNodeShape::Note(p)
            | GraphNodeShape::Tab(p) | GraphNodeShape::Folder(p) | GraphNodeShape::Box3d(p)
            | GraphNodeShape::Component(p) | GraphNodeShape::Promoter(p) | GraphNodeShape::Cds(p)
            | GraphNodeShape::Terminator(p) | GraphNodeShape::Utr(p) | GraphNodeShape::PrimerSite(p)
            | GraphNodeShape::RestrictionSite(p) | GraphNodeShape::FivePOverhang(p)
            | GraphNodeShape::ThreePOverhang(p) | GraphNodeShape::NOverhang(p) => ShapeGeometry::Polygon(p.duplicate()),
        };
        Some(GraphNodeGeometry::new(g, row))
    }

    /// The Graphviz name of this shape.
    pub fn dot_name(&self) -> (r: &'static str)
        ensures
            r@ == kind_dot_name(shape_kind(*self)),
    {
        self.kind().dot_name()
    }

    /// The CSS class name of this shape.
    pub fn css_class(&self) -> (r: &'static str)
        ensures
            r@ == kind_css_class(shape_kind(*self)),
    {
        match self.kind() {
            ShapeKind::MDiamond => "mdiamond",
            ShapeKind::MSquare => "msquare",
            ShapeKind::MCircle => "mcircle",
            k => k.dot_name(),
        }
    }
}

/// Every shape family is selected by its own Graphviz name: the default shape
/// for a shape's `dot_name` has the same family.
pub proof fn lemma_dot_name_selects_kind(k: ShapeKind)
    ensures
        kind_for_name(kind_dot_name(k)) == Some(k),
{
    match k {
        ShapeKind::Box => {
            reveal_strlit("box");
            assert("box"@.len() == 3);
            assert(kind_for_name("box"@) == Some(ShapeKind::Box));
        },
        ShapeKind::Polygon => {
            reveal_strlit("polygon");
            assert("polygon"@.len() == 7);
            reveal_strlit("box");
            assert("box"@.len() == 3);
            assert(kind_for_name("polygon"@) == Some(ShapeKind::Polygon));
        },
        ShapeKind::Ellipse => {
            reveal_strlit("ellipse");
            assert("ellipse"@.len() == 7);
            reveal_strlit("box");
            assert("box"@.len() == 3);
            reveal_strlit("polygon");
            assert("polygon"@.len() == 7 && "polygon"@[0] == 'p' && "ellipse"@[0] == 'e');
            assert(kind_for_name("ellipse"@) == Some(ShapeKind::Ellipse));
        },
        ShapeKind::Oval => {
            reveal_strlit("oval");
            assert("oval"@.len() == 4);
            reveal_strlit("box");
            assert("box"@.len() == 3);
            reveal_strlit("polygon");
            assert("polygon"@.len() == 7);
            reveal_strlit("ellipse");
            assert("ellipse"@.len() == 7);
            assert(kind_for_name("oval"@) == Some(ShapeKind::Oval));
        },
        ShapeKind::Circle => {
            reveal_strlit("circle");
            assert("circle"@.len() == 6);
            reveal_strlit("box");
            assert("box"@.len() == 3);
            reveal_strlit("polygon");
            assert("polygon"@.len() == 7);
            reveal_strlit("ellipse");
            assert("ellipse"@.len() == 7);
            reveal_strlit("oval");
            assert("oval"@.len() == 4);
            assert(kind_for_name("circle"@) == Some(ShapeKind::Circle));
        },
        ShapeKind::Point => {
            reveal_strlit("point");
            assert("point"@.len() == 5);
            reveal_strlit("box");
            assert("box"@.len() == 3);
            reveal_strlit("polygon");
            assert("polygon"@.len() == 7);
            reveal_strlit("ellipse");
            assert("ellipse"@.len() == 7);
            reveal_strlit("oval");
            assert("oval"@.len() == 4);
            reveal_strlit("circle");
            assert("circle"@.len() == 6);
            assert(kind_for_name("point"@) == Some(ShapeKind::Point));
        },
        ShapeKind::Egg => {
            reveal_strlit("egg");
            assert("egg"@.len() == 3);
            reveal_strlit("box");
            assert("box"@.len() == 3 && "box"@[0] == 'b' && "egg"@[0] == 'e');
            reveal_strlit("polygon");
            assert("polygon"@.len() == 7);
            reveal_strlit("ellipse");
            assert("ellipse"@.len() == 7);
            reveal_strlit("oval");
            assert("oval"@.len() == 4);
            reveal_strlit("circle");
            assert("circle"@.len() == 6);
            reveal_strlit("point");
            assert("point"@.len() == 5);
            assert(kind_for_name("egg"@) == Some(ShapeKind::Egg));
        },
        ShapeKind::Triangle => {
            reveal_strlit("triangle");
            assert("triangle"@.len() == 8);
            reveal_strlit("box");
            assert("box"@.len() == 3);
            reveal_strlit("polygon");
            assert("polygon"@.len() == 7);
            reveal_strlit("ellipse");
            assert("ellipse"@.len() == 7);
            reveal_strlit("oval");
            assert("oval"@.len() == 4);
            reveal_strlit("circle");
            assert("circle"@.len() == 6);
            reveal_strlit("point");
            assert("point"@.len() == 5);
            reveal_strlit("egg");
            assert("egg"@.len() == 3);
            assert(kind_for_name("triangle"@) == Some(ShapeKind::Triangle));
        },
        ShapeKind::Plaintext => {
            reveal_strlit("plaintext");
            assert("plaintext"@.len() == 9);
            reveal_strlit("box");
            assert("box"@.len() == 3);
            reveal_strlit("polygon");
            assert("polygon"@.len() == 7);
            reveal_strlit("ellipse");
            assert("ellipse"@.len() == 7);
            reveal_strlit("oval");
            assert("oval"@.len() == 4);
            reveal_strlit("circle");
            assert("circle"@.len() == 6);
            reveal_strlit("point");
            assert("point"@.len() == 5);
            reveal_strlit("egg");
            assert("egg"@.len() == 3);
            reveal_strlit("triangle");
            assert("triangle"@.len() == 8);
            assert(kind_for_name("plaintext"@) == Some(ShapeKind::Plaintext));
        },
        ShapeKind::Plain => {
            reveal_strlit("plain");
            assert("plain"@.len() == 5);
            reveal_strlit("box");
            assert("box"@.len() == 3);
            reveal_strlit("polygon");
            assert("polygon"@.len() == 7);
            reveal_strlit("ellipse");
            assert("ellipse"@.len() == 7);
            reveal_strlit("oval");
            assert("oval"@.len() == 4);
            reveal_strlit("circle");
            assert("circle"@.len() == 6);
            reveal_strlit("point");
            assert("point"@.len() == 5 && "point"@[1] == 'o' && "plain"@[1] == 'l');
            reveal_strlit("egg");
            assert("egg"@.len() == 3);
            reveal_strlit("triangle");
            assert("triangle"@.len() == 8);
            reveal_strlit("plaintext");
            assert("plaintext"@.len() == 9);
            assert(kind_for_name("plain"@) == Some(ShapeKind::Plain));
        },
        ShapeKind::Diamond => {
            reveal_strlit("diamond");
            assert("diamond"@.len() == 7);
            reveal_strlit("box");
            assert("box"@.len() == 3);
            reveal_strlit("polygon");
            assert("polygon"@.len() == 7 && "polygon"@[0] == 'p' && "diamond"@[0] == 'd');
            reveal_strlit("ellipse");
            assert("ellipse"@.len() == 7 && "ellipse"@[0] == 'e' && "diamond"@[0] == 'd');
            reveal_strlit("oval");
            assert("oval"@.len() == 4);
            reveal_strlit("circle");
            assert("circle"@.len() == 6);
            reveal_strlit("point");
            assert("point"@.len() == 5);
            reveal_strlit("egg");
            assert("egg"@.len() == 3);
            reveal_strlit("triangle");
            assert("triangle"@.len() == 8);
            reveal_strlit("plaintext");
            assert("plaintext"@.len() == 9);
            reveal_strlit("plain");
            assert("plain"@.len() == 5);
            assert(kind_for_name("diamond"@) == Some(ShapeKind::Diamond));
        },
        ShapeKind::Trapezium => {
            reveal_strlit("trapezium");
            assert("trapezium"@.len() == 9);
            reveal_strlit("box");
            assert("box"@.len() == 3);
            reveal_strlit("polygon");
            assert("polygon"@.len() == 7);
            reveal_strlit("ellipse");
            assert("ellipse"@.len() == 7);
            reveal_strlit("oval");
            assert("oval"@.len() == 4);
            reveal_strlit("circle");
            assert("circle"@.len() == 6);
            reveal_strlit("point");
            assert("point"@.len() == 5);
            reveal_strlit("egg");
            assert("egg"@.len() == 3);
            reveal_strlit("triangle");
            assert("triangle"@.len() == 8);
            reveal_strlit("plaintext");
            assert("plaintext"@.len() == 9 && "plaintext"@[0] == 'p' && "trapezium"@[0] == 't');
            reveal_strlit("plain");
            assert("plain"@.len() == 5);
            reveal_strlit("diamond");
            assert("diamond"@.len() == 7);
            assert(kind_for_name("trapezium"@) == Some(ShapeKind::Trapezium));
        },
        ShapeKind::Parallelogram => {
            reveal_strlit("parallelogram");
            assert("parallelogram"@.len() == 13);
            reveal_strlit("box");
            assert("box"@.len() == 3);
            reveal_strlit("polygon");
            assert("polygon"@.len() == 7);
            reveal_strlit("ellipse");
            assert("ellipse"@.len() == 7);
            reveal_strlit("oval");
            assert("oval"@.len() == 4);
            reveal_strlit("circle");
            assert("circle"@.len() == 6);
            reveal_strlit("point");
            assert("point"@.len() == 5);
            reveal_strlit("egg");
            assert("egg"@.len() == 3);
            reveal_strlit("triangle");
            assert("triangle"@.len() == 8);
            reveal_strlit("plaintext");
            assert("plaintext"@.len() == 9);
            reveal_strlit("plain");
            assert("plain"@.len() == 5);
            reveal_strlit("diamond");
            assert("diamond"@.len() == 7);
            reveal_strlit("trapezium");
            assert("trapezium"@.len() == 9);
            assert(kind_for_name("parallelogram"@) == Some(ShapeKind::Parallelogram));
        },
        ShapeKind::House => {
            reveal_strlit("house");
            assert("house"@.len() == 5);
            reveal_strlit("box");
            assert("box"@.len() == 3);
            reveal_strlit("polygon");
            assert("polygon"@.len() == 7);
            reveal_strlit("ellipse");
            assert("ellipse"@.len() == 7);
            reveal_strlit("oval");
            assert("oval"@.len() == 4);
            reveal_strlit("circle");
            assert("circle"@.len() == 6);
            reveal_strlit("point");
            assert("point"@.len() == 5 && "point"@[0] == 'p' && "house"@[0] == 'h');
            reveal_strlit("egg");
            assert("egg"@.len() == 3);
            reveal_strlit("triangle");
            assert("triangle"@.len() == 8);
            reveal_strlit("plaintext");
            assert("plaintext"@.len() == 9);
            reveal_strlit("plain");
            assert("plain"@.len() == 5 && "plain"@[0] == 'p' && "house"@[0] == 'h');
            reveal_strlit("diamond");
            assert("diamond"@.len() == 7);
            reveal_strlit("trapezium");
            assert("trapezium"@.len() == 9);
            reveal_strlit("parallelogram");
            assert("parallelogram"@.len() == 13);
            assert(kind_for_name("house"@) == Some(ShapeKind::House));
        },
        ShapeKind::Pentagon => {
            reveal_strlit("pentagon");
            assert("pentagon"@.len() == 8);
            reveal_strlit("box");
            assert("box"@.len() == 3);
            reveal_strlit("polygon");
            assert("polygon"@.len() == 7);
            reveal_strlit("ellipse");
            assert("ellipse"@.len() == 7);
            reveal_strlit("oval");
            assert("oval"@.len() == 4);
            reveal_strlit("circle");
            assert("circle"@.len() == 6);
            reveal_strlit("point");
            assert("point"@.len() == 5);
            reveal_strlit("egg");
            assert("egg"@.len() == 3);
            reveal_strlit("triangle");
            assert("triangle"@.len() == 8 && "triangle"@[0] == 't' && "pentagon"@[0] == 'p');
            reveal_strlit("plaintext");
            assert("plaintext"@.len() == 9);
            reveal_strlit("plain");
            assert("plain"@.len() == 5);
            reveal_strlit("diamond");
            assert("diamond"@.len() == 7);
            reveal_strlit("trapezium");
            assert("trapezium"@.len() == 9);
            reveal_strlit("parallelogram");
            assert("parallelogram"@.len() == 13);
            reveal_strlit("house");
            assert("house"@.len() == 5);
            assert(kind_for_name("pentagon"@) == Some(ShapeKind::Pentagon));
        },
        ShapeKind::Hexagon => {
            reveal_strlit("hexagon");
            assert("hexagon"@.len() == 7);
            reveal_strlit("box");
            assert("box"@.len() == 3);
            reveal_strlit("polygon");
            assert("polygon"@.len() == 7 && "polygon"@[0] == 'p' && "hexagon"@[0] == 'h');
            reveal_strlit("ellipse");
            assert("ellipse"@.len() == 7 && "ellipse"@[0] == 'e' && "hexagon"@[0] == 'h');
            reveal_strlit("oval");
            assert("oval"@.len() == 4);
            reveal_strlit("circle");
            assert("circle"@.len() == 6);
            reveal_strlit("point");
            assert("point"@.len() == 5);
            reveal_strlit("egg");
            assert("egg"@.len() == 3);
            reveal_strlit("triangle");
            assert("triangle"@.len() == 8);
            reveal_strlit("plaintext");
            assert("plaintext"@.len() == 9);
            reveal_strlit("plain");
            assert("plain"@.len() == 5);
            reveal_strlit("diamond");
            assert("diamond"@.len() == 7 && "diamond"@[0] == 'd' && "hexagon"@[0] == 'h');
            reveal_strlit("trapezium");
            assert("trapezium"@.len() == 9);
            reveal_strlit("parallelogram");
            assert("parallelogram"@.len() == 13);
            reveal_strlit("house");
            assert("house"@.len() == 5);
            reveal_strlit("pentagon");
            assert("pentagon"@.len() == 8);
            assert(kind_for_name("hexagon"@) == Some(ShapeKind::Hexagon));
        },
        ShapeKind::Septagon => {
            reveal_strlit("septagon");
            assert("septagon"@.len() == 8);
            reveal_strlit("box");
            assert("box"@.len() == 3);
            reveal_strlit("polygon");
            assert("polygon"@.len() == 7);
            reveal_strlit("ellipse");
            assert("ellipse"@.len() == 7);
            reveal_strlit("oval");
            assert("oval"@.len() == 4);
            reveal_strlit("circle");
            assert("circle"@.len() == 6);
            reveal_strlit("point");
            assert("point"@.len() == 5);
            reveal_strlit("egg");
            assert("egg"@.len() == 3);
            reveal_strlit("triangle");
            assert("triangle"@.len() == 8 && "triangle"@[0] == 't' && "septagon"@[0] == 's');
            reveal_strlit("plaintext");
            assert("plaintext"@.len() == 9);
            reveal_strlit("plain");
            assert("plain"@.len() == 5);
            reveal_strlit("diamond");
            assert("diamond"@.len() == 7);
            reveal_strlit("trapezium");
            assert("trapezium"@.len() == 9);
            reveal_strlit("parallelogram");
            assert("parallelogram"@.len() == 13);
            reveal_strlit("house");
            assert("house"@.len() == 5);
            reveal_strlit("pentagon");
            assert("pentagon"@.len() == 8 && "pentagon"@[0] == 'p' && "septagon"@[0] == 's');
            reveal_strlit("hexagon");
            assert("hexagon"@.len() == 7);
            assert(kind_for_name("septagon"@) == Some(ShapeKind::Septagon));
        },
        ShapeKind::Octagon => {
            reveal_strlit("octagon");
            assert("octagon"@.len() == 7);
            reveal_strlit("box");
            assert("box"@.len() == 3);
            reveal_strlit("polygon");
            assert("polygon"@.len() == 7 && "polygon"@[0] == 'p' && "octagon"@[0] == 'o');
            reveal_strlit("ellipse");
            assert("ellipse"@.len() == 7 && "ellipse"@[0] == 'e' && "octagon"@[0] == 'o');
            reveal_strlit("oval");
            assert("oval"@.len() == 4);
            reveal_strlit("circle");
            assert("circle"@.len() == 6);
            reveal_strlit("point");
            assert("point"@.len() == 5);
            reveal_strlit("egg");
            assert("egg"@.len() == 3);
            reveal_strlit("triangle");
            assert("triangle"@.len() == 8);
            reveal_strlit("plaintext");
            assert("plaintext"@.len() == 9);
            reveal_strlit("plain");
            assert("plain"@.len() == 5);
            reveal_strlit("diamond");
            assert("diamond"@.len() == 7 && "diamond"@[0] == 'd' && "octagon"@[0] == 'o');
            reveal_strlit("trapezium");
            assert("trapezium"@.len() == 9);
            reveal_strlit("parallelogram");
            assert("parallelogram"@.len() == 13);
            reveal_strlit("house");
            assert("house"@.len() == 5);
            reveal_strlit("pentagon");
            assert("pentagon"@.len() == 8);
            reveal_strlit("hexagon");
            assert("hexagon"@.len() == 7 && "hexagon"@[0] == 'h' && "octagon"@[0] == 'o');
            reveal_strlit("septagon");
            assert("septagon"@.len() == 8);
            assert(kind_for_name("octagon"@) == Some(ShapeKind::Octagon));
        },
        ShapeKind::DoubleCircle => {
            reveal_strlit("doublecircle");
            assert("doublecircle"@.len() == 12);
            reveal_strlit("box");
            assert("box"@.len() == 3);
            reveal_strlit("polygon");
            assert("polygon"@.len() == 7);
            reveal_strlit("ellipse");
            assert("ellipse"@.len() == 7);
            reveal_strlit("oval");
            assert("oval"@.len() == 4);
            reveal_strlit("circle");
            assert("circle"@.len() == 6);
            reveal_strlit("point");
            assert("point"@.len() == 5);
            reveal_strlit("egg");
            assert("egg"@.len() == 3);
            reveal_strlit("triangle");
            assert("triangle"@.len() == 8);
            reveal_strlit("plaintext");
            assert("plaintext"@.len() == 9);
            reveal_strlit("plain");
            assert("plain"@.len() == 5);
            reveal_strlit("diamond");
            assert("diamond"@.len() == 7);
            reveal_strlit("trapezium");
            assert("trapezium"@.len() == 9);
            reveal_strlit("parallelogram");
            assert("parallelogram"@.len() == 13);
            reveal_strlit("house");
            assert("house"@.len() == 5);
            reveal_strlit("pentagon");
            assert("pentagon"@.len() == 8);
            reveal_strlit("hexagon");
            assert("hexagon"@.len() == 7);
            reveal_strlit("septagon");
            assert("septagon"@.len() == 8);
            reveal_strlit("octagon");
            assert("octagon"@.len() == 7);
            reveal_strlit("double_circle");
            assert("double_circle"@.len() == 13);
            assert(kind_for_name("doublecircle"@) == Some(ShapeKind::DoubleCircle));
        },
        ShapeKind::DoubleOctagon => {
            reveal_strlit("doubleoctagon");
            assert("doubleoctagon"@.len() == 13);
            reveal_strlit("box");
            assert("box"@.len() == 3);
            reveal_strlit("polygon");
            assert("polygon"@.len() == 7);
            reveal_strlit("ellipse");
            assert("ellipse"@.len() == 7);
            reveal_strlit("oval");
            assert("oval"@.len() == 4);
            reveal_strlit("circle");
            assert("circle"@.len() == 6);
            reveal_strlit("point");
            assert("point"@.len() == 5);
            reveal_strlit("egg");
            assert("egg"@.len() == 3);
            reveal_strlit("triangle");
            assert("triangle"@.len() == 8);
            reveal_strlit("plaintext");
            assert("plaintext"@.len() == 9);
            reveal_strlit("plain");
            assert("plain"@.len() == 5);
            reveal_strlit("diamond");
            assert("diamond"@.len() == 7);
            reveal_strlit("trapezium");
            assert("trapezium"@.len() == 9);
            reveal_strlit("parallelogram");
            assert("parallelogram"@.len() == 13 && "parallelogram"@[0] == 'p' && "doubleoctagon"@[0] == 'd');
            reveal_strlit("house");
            assert("house"@.len() == 5);
            reveal_strlit("pentagon");
            assert("pentagon"@.len() == 8);
            reveal_strlit("hexagon");
            assert("hexagon"@.len() == 7);
            reveal_strlit("septagon");
            assert("septagon"@.len() == 8);
            reveal_strlit("octagon");
            assert("octagon"@.len() == 7);
            reveal_strlit("double_circle");
            assert("double_circle"@.len() == 13 && "double_circle"@[6] == '_' && "doubleoctagon"@[6] == 'o');
            reveal_strlit("doublecircle");
            assert("doublecircle"@.len() == 12);
            reveal_strlit("double_octagon");
            assert("double_octagon"@.len() == 14);
            assert(kind_for_name("doubleoctagon"@) == Some(ShapeKind::DoubleOctagon));
        },
        ShapeKind::TripleOctagon => {
            reveal_strlit("tripleoctagon");
            assert("tripleoctagon"@.len() == 13);
            reveal_strlit("box");
            assert("box"@.len() == 3);
            reveal_strlit("polygon");
            assert("polygon"@.len() == 7);
            reveal_strlit("ellipse");
            assert("ellipse"@.len() == 7);
            reveal_strlit("oval");
            assert("oval"@.len() == 4);
            reveal_strlit("circle");
            assert("circle"@.len() == 6);
            reveal_strlit("point");
            assert("point"@.len() == 5);
            reveal_strlit("egg");
            assert("egg"@.len() == 3);
            reveal_strlit("triangle");
            assert("triangle"@.len() == 8);
            reveal_strlit("plaintext");
            assert("plaintext"@.len() == 9);
            reveal_strlit("plain");
            assert("plain"@.len() == 5);
            reveal_strlit("diamond");
            assert("diamond"@.len() == 7);
            reveal_strlit("trapezium");
            assert("trapezium"@.len() == 9);
            reveal_strlit("parallelogram");
            assert("parallelogram"@.len() == 13 && "parallelogram"@[0] == 'p' && "tripleoctagon"@[0] == 't');
            reveal_strlit("house");
            assert("house"@.len() == 5);
            reveal_strlit("pentagon");
            assert("pentagon"@.len() == 8);
            reveal_strlit("hexagon");
            assert("hexagon"@.len() == 7);
            reveal_strlit("septagon");
            assert("septagon"@.len() == 8);
            reveal_strlit("octagon");
            assert("octagon"@.len() == 7);
            reveal_strlit("double_circle");
            assert("double_circle"@.len() == 13 && "double_circle"@[0] == 'd' && "tripleoctagon"@[0] == 't');
            reveal_strlit("doublecircle");
            assert("doublecircle"@.len() == 12);
            reveal_strlit("double_octagon");
            assert("double_octagon"@.len() == 14);
            reveal_strlit("doubleoctagon");
            assert("doubleoctagon"@.len() == 13 && "doubleoctagon"@[0] == 'd' && "tripleoctagon"@[0] == 't');
            reveal_strlit("triple_octagon");
            assert("triple_octagon"@.len() == 14);
            assert(kind_for_name("tripleoctagon"@) == Some(ShapeKind::TripleOctagon));
        },
        ShapeKind::InvTriangle => {
            reveal_strlit("invtriangle");
            assert("invtriangle"@.len() == 11);
            reveal_strlit("box");
            assert("box"@.len() == 3);
            reveal_strlit("polygon");
            assert("polygon"@.len() == 7);
            reveal_strlit("ellipse");
            assert("ellipse"@.len() == 7);
            reveal_strlit("oval");
            assert("oval"@.len() == 4);
            reveal_strlit("circle");
            assert("circle"@.len() == 6);
            reveal_strlit("point");
            assert("point"@.len() == 5);
            reveal_strlit("egg");
            assert("egg"@.len() == 3);
            reveal_strlit("triangle");
            assert("triangle"@.len() == 8);
            reveal_strlit("plaintext");
            assert("plaintext"@.len() == 9);
            reveal_strlit("plain");
            assert("plain"@.len() == 5);
            reveal_strlit("diamond");
            assert("diamond"@.len() == 7);
            reveal_strlit("trapezium");
            assert("trapezium"@.len() == 9);
            reveal_strlit("parallelogram");
            assert("parallelogram"@.len() == 13);
            reveal_strlit("house");
            assert("house"@.len() == 5);
            reveal_strlit("pentagon");
            assert("pentagon"@.len() == 8);
            reveal_strlit("hexagon");
            assert("hexagon"@.len() == 7);
            reveal_strlit("septagon");
            assert("septagon"@.len() == 8);
            reveal_strlit("octagon");
            assert("octagon"@.len() == 7);
            reveal_strlit("double_circle");
            assert("double_circle"@.len() == 13);
            reveal_strlit("doublecircle");
            assert("doublecircle"@.len() == 12);
            reveal_strlit("double_octagon");
            assert("double_octagon"@.len() == 14);
            reveal_strlit("doubleoctagon");
            assert("doubleoctagon"@.len() == 13);
            reveal_strlit("triple_octagon");
            assert("triple_octagon"@.len() == 14);
            reveal_strlit("tripleoctagon");
            assert("tripleoctagon"@.len() == 13);
            reveal_strlit("inv_triangle");
            assert("inv_triangle"@.len() == 12);
            assert(kind_for_name("invtriangle"@) == Some(ShapeKind::InvTriangle));
        },
        ShapeKind::InvTrapezium => {
            reveal_strlit("invtrapezium");
            assert("invtrapezium"@.len() == 12);
            reveal_strlit("box");
            assert("box"@.len() == 3);
            reveal_strlit("polygon");
            assert("polygon"@.len() == 7);
            reveal_strlit("ellipse");
            assert("ellipse"@.len() == 7);
            reveal_strlit("oval");
            assert("oval"@.len() == 4);
            reveal_strlit("circle");
            assert("circle"@.len() == 6);
            reveal_strlit("point");
            assert("point"@.len() == 5);
            reveal_strlit("egg");
            assert("egg"@.len() == 3);
            reveal_strlit("triangle");
            assert("triangle"@.len() == 8);
            reveal_strlit("plaintext");
            assert("plaintext"@.len() == 9);
            reveal_strlit("plain");
            assert("plain"@.len() == 5);
            reveal_strlit("diamond");
            assert("diamond"@.len() == 7);
            reveal_strlit("trapezium");
            assert("trapezium"@.len() == 9);
            reveal_strlit("parallelogram");
            assert("parallelogram"@.len() == 13);
            reveal_strlit("house");
            assert("house"@.len() == 5);
            reveal_strlit("pentagon");
            assert("pentagon"@.len() == 8);
            reveal_strlit("hexagon");
            assert("hexagon"@.len() == 7);
            reveal_strlit("septagon");
            assert("septagon"@.len() == 8);
            reveal_strlit("octagon");
            assert("octagon"@.len() == 7);
            reveal_strlit("double_circle");
            assert("double_circle"@.len() == 13);
            reveal_strlit("doublecircle");
            assert("doublecircle"@.len() == 12 && "doublecircle"@[0] == 'd' && "invtrapezium"@[0] == 'i');
            reveal_strlit("double_octagon");
            assert("double_octagon"@.len() == 14);
            reveal_strlit("doubleoctagon");
            assert("doubleoctagon"@.len() == 13);
            reveal_strlit("triple_octagon");
            assert("triple_octagon"@.len() == 14);
            reveal_strlit("tripleoctagon");
            assert("tripleoctagon"@.len() == 13);
            reveal_strlit("inv_triangle");
            assert("inv_triangle"@.len() == 12 && "inv_triangle"@[3] == '_' && "invtrapezium"@[3] == 't');
            reveal_strlit("invtriangle");
            assert("invtriangle"@.len() == 11);
            reveal_strlit("inv_trapezium");
            assert("inv_trapezium"@.len() == 13);
            assert(kind_for_name("invtrapezium"@) == Some(ShapeKind::InvTrapezium));
        },
        ShapeKind::InvHouse => {
            reveal_strlit("invhouse");
            assert("invhouse"@.len() == 8);
            reveal_strlit("box");
            assert("box"@.len() == 3);
            reveal_strlit("polygon");
            assert("polygon"@.len() == 7);
            reveal_strlit("ellipse");
            assert("ellipse"@.len() == 7);
            reveal_strlit("oval");
            assert("oval"@.len() == 4);
            reveal_strlit("circle");
            assert("circle"@.len() == 6);
            reveal_strlit("point");
            assert("point"@.len() == 5);
            reveal_strlit("egg");
            assert("egg"@.len() == 3);
            reveal_strlit("triangle");
            assert("triangle"@.len() == 8 && "triangle"@[0] == 't' && "invhouse"@[0] == 'i');
            reveal_strlit("plaintext");
            assert("plaintext"@.len() == 9);
            reveal_strlit("plain");
            assert("plain"@.len() == 5);
            reveal_strlit("diamond");
            assert("diamond"@.len() == 7);
            reveal_strlit("trapezium");
            assert("trapezium"@.len() == 9);
            reveal_strlit("parallelogram");
            assert("parallelogram"@.len() == 13);
            reveal_strlit("house");
            assert("house"@.len() == 5);
            reveal_strlit("pentagon");
            assert("pentagon"@.len() == 8 && "pentagon"@[0] == 'p' && "invhouse"@[0] == 'i');
            reveal_strlit("hexagon");
            assert("hexagon"@.len() == 7);
            reveal_strlit("septagon");
            assert("septagon"@.len() == 8 && "septagon"@[0] == 's' && "invhouse"@[0] == 'i');
            reveal_strlit("octagon");
            assert("octagon"@.len() == 7);
            reveal_strlit("double_circle");
            assert("double_circle"@.len() == 13);
            reveal_strlit("doublecircle");
            assert("doublecircle"@.len() == 12);
            reveal_strlit("double_octagon");
            assert("double_octagon"@.len() == 14);
            reveal_strlit("doubleoctagon");
            assert("doubleoctagon"@.len() == 13);
            reveal_strlit("triple_octagon");
            assert("triple_octagon"@.len() == 14);
            reveal_strlit("tripleoctagon");
            assert("tripleoctagon"@.len() == 13);
            reveal_strlit("inv_triangle");
            assert("inv_triangle"@.len() == 12);
            reveal_strlit("invtriangle");
            assert("invtriangle"@.len() == 11);
            reveal_strlit("inv_trapezium");
            assert("inv_trapezium"@.len() == 13);
            reveal_strlit("invtrapezium");
            assert("invtrapezium"@.len() == 12);
            reveal_strlit("inv_house");
            assert("inv_house"@.len() == 9);
            assert(kind_for_name("invhouse"@) == Some(ShapeKind::InvHouse));
        },
        ShapeKind::MDiamond => {
            reveal_strlit("Mdiamond");
            assert("Mdiamond"@.len() == 8);
            reveal_strlit("box");
            assert("box"@.len() == 3);
            reveal_strlit("polygon");
            assert("polygon"@.len() == 7);
            reveal_strlit("ellipse");
            assert("ellipse"@.len() == 7);
            reveal_strlit("oval");
            assert("oval"@.len() == 4);
            reveal_strlit("circle");
            assert("circle"@.len() == 6);
            reveal_strlit("point");
            assert("point"@.len() == 5);
            reveal_strlit("egg");
            assert("egg"@.len() == 3);
            reveal_strlit("triangle");
            assert("triangle"@.len() == 8 && "triangle"@[0] == 't' && "Mdiamond"@[0] == 'M');
            reveal_strlit("plaintext");
            assert("plaintext"@.len() == 9);
            reveal_strlit("plain");
            assert("plain"@.len() == 5);
            reveal_strlit("diamond");
            assert("diamond"@.len() == 7);
            reveal_strlit("trapezium");
            assert("trapezium"@.len() == 9);
            reveal_strlit("parallelogram");
            assert("parallelogram"@.len() == 13);
            reveal_strlit("house");
            assert("house"@.len() == 5);
            reveal_strlit("pentagon");
            assert("pentagon"@.len() == 8 && "pentagon"@[0] == 'p' && "Mdiamond"@[0] == 'M');
            reveal_strlit("hexagon");
            assert("hexagon"@.len() == 7);
            reveal_strlit("septagon");
            assert("septagon"@.len() == 8 && "septagon"@[0] == 's' && "Mdiamond"@[0] == 'M');
            reveal_strlit("octagon");
            assert("octagon"@.len() == 7);
            reveal_strlit("double_circle");
            assert("double_circle"@.len() == 13);
            reveal_strlit("doublecircle");
            assert("doublecircle"@.len() == 12);
            reveal_strlit("double_octagon");
            assert("double_octagon"@.len() == 14);
            reveal_strlit("doubleoctagon");
            assert("doubleoctagon"@.len() == 13);
            reveal_strlit("triple_octagon");
            assert("triple_octagon"@.len() == 14);
            reveal_strlit("tripleoctagon");
            assert("tripleoctagon"@.len() == 13);
            reveal_strlit("inv_triangle");
            assert("inv_triangle"@.len() == 12);
            reveal_strlit("invtriangle");
            assert("invtriangle"@.len() == 11);
            reveal_strlit("inv_trapezium");
            assert("inv_trapezium"@.len() == 13);
            reveal_strlit("invtrapezium");
            assert("invtrapezium"@.len() == 12);
            reveal_strlit("inv_house");
            assert("inv_house"@.len() == 9);
            reveal_strlit("invhouse");
            assert("invhouse"@.len() == 8 && "invhouse"@[0] == 'i' && "Mdiamond"@[0] == 'M');
            reveal_strlit("m_diamond");
            assert("m_diamond"@.len() == 9);
            reveal_strlit("mdiamond");
            assert("mdiamond"@.len() == 8 && "mdiamond"@[0] == 'm' && "Mdiamond"@[0] == 'M');
            assert(kind_for_name("Mdiamond"@) == Some(ShapeKind::MDiamond));
        },
        ShapeKind::MSquare => {
            reveal_strlit("Msquare");
            assert("Msquare"@.len() == 7);
            reveal_strlit("box");
            assert("box"@.len() == 3);
            reveal_strlit("polygon");
            assert("polygon"@.len() == 7 && "polygon"@[0] == 'p' && "Msquare"@[0] == 'M');
            reveal_strlit("ellipse");
            assert("ellipse"@.len() == 7 && "ellipse"@[0] == 'e' && "Msquare"@[0] == 'M');
            reveal_strlit("oval");
            assert("oval"@.len() == 4);
            reveal_strlit("circle");
            assert("circle"@.len() == 6);
            reveal_strlit("point");
            assert("point"@.len() == 5);
            reveal_strlit("egg");
            assert("egg"@.len() == 3);
            reveal_strlit("triangle");
            assert("triangle"@.len() == 8);
            reveal_strlit("plaintext");
            assert("plaintext"@.len() == 9);
            reveal_strlit("plain");
            assert("plain"@.len() == 5);
            reveal_strlit("diamond");
            assert("diamond"@.len() == 7 && "diamond"@[0] == 'd' && "Msquare"@[0] == 'M');
            reveal_strlit("trapezium");
            assert("trapezium"@.len() == 9);
            reveal_strlit("parallelogram");
            assert("parallelogram"@.len() == 13);
            reveal_strlit("house");
            assert("house"@.len() == 5);
            reveal_strlit("pentagon");
            assert("pentagon"@.len() == 8);
            reveal_strlit("hexagon");
            assert("hexagon"@.len() == 7 && "hexagon"@[0] == 'h' && "Msquare"@[0] == 'M');
            reveal_strlit("septagon");
            assert("septagon"@.len() == 8);
            reveal_strlit("octagon");
            assert("octagon"@.len() == 7 && "octagon"@[0] == 'o' && "Msquare"@[0] == 'M');
            reveal_strlit("double_circle");
            assert("double_circle"@.len() == 13);
            reveal_strlit("doublecircle");
            assert("doublecircle"@.len() == 12);
            reveal_strlit("double_octagon");
            assert("double_octagon"@.len() == 14);
            reveal_strlit("doubleoctagon");
            assert("doubleoctagon"@.len() == 13);
            reveal_strlit("triple_octagon");
            assert("triple_octagon"@.len() == 14);
            reveal_strlit("tripleoctagon");
            assert("tripleoctagon"@.len() == 13);
            reveal_strlit("inv_triangle");
            assert("inv_triangle"@.len() == 12);
            reveal_strlit("invtriangle");
            assert("invtriangle"@.len() == 11);
            reveal_strlit("inv_trapezium");
            assert("inv_trapezium"@.len() == 13);
            reveal_strlit("invtrapezium");
            assert("invtrapezium"@.len() == 12);
            reveal_strlit("inv_house");
            assert("inv_house"@.len() == 9);
            reveal_strlit("invhouse");
            assert("invhouse"@.len() == 8);
            reveal_strlit("m_diamond");
            assert("m_diamond"@.len() == 9);
            reveal_strlit("mdiamond");
            assert("mdiamond"@.len() == 8);
            reveal_strlit("Mdiamond");
            assert("Mdiamond"@.len() == 8);
            reveal_strlit("m_square");
            assert("m_square"@.len() == 8);
            reveal_strlit("msquare");
            assert("msquare"@.len() == 7 && "msquare"@[0] == 'm' && "Msquare"@[0] == 'M');
            assert(kind_for_name("Msquare"@) == Some(ShapeKind::MSquare));
        },
        ShapeKind::MCircle => {
            reveal_strlit("Mcircle");
            assert("Mcircle"@.len() == 7);
            reveal_strlit("box");
            assert("box"@.len() == 3);
            reveal_strlit("polygon");
            assert("polygon"@.len() == 7 && "polygon"@[0] == 'p' && "Mcircle"@[0] == 'M');
            reveal_strlit("ellipse");
            assert("ellipse"@.len() == 7 && "ellipse"@[0] == 'e' && "Mcircle"@[0] == 'M');
            reveal_strlit("oval");
            assert("oval"@.len() == 4);
            reveal_strlit("circle");
            assert("circle"@.len() == 6);
            reveal_strlit("point");
            assert("point"@.len() == 5);
            reveal_strlit("egg");
            assert("egg"@.len() == 3);
            reveal_strlit("triangle");
            assert("triangle"@.len() == 8);
            reveal_strlit("plaintext");
            assert("plaintext"@.len() == 9);
            reveal_strlit("plain");
            assert("plain"@.len() == 5);
            reveal_strlit("diamond");
            assert("diamond"@.len() == 7 && "diamond"@[0] == 'd' && "Mcircle"@[0] == 'M');
            reveal_strlit("trapezium");
            assert("trapezium"@.len() == 9);
            reveal_strlit("parallelogram");
            assert("parallelogram"@.len() == 13);
            reveal_strlit("house");
            assert("house"@.len() == 5);
            reveal_strlit("pentagon");
            assert("pentagon"@.len() == 8);
            reveal_strlit("hexagon");
            assert("hexagon"@.len() == 7 && "hexagon"@[0] == 'h' && "Mcircle"@[0] == 'M');
            reveal_strlit("septagon");
            assert("septagon"@.len() == 8);
            reveal_strlit("octagon");
            assert("octagon"@.len() == 7 && "octagon"@[0] == 'o' && "Mcircle"@[0] == 'M');
            reveal_strlit("double_circle");
            assert("double_circle"@.len() == 13);
            reveal_strlit("doublecircle");
            assert("doublecircle"@.len() == 12);
            reveal_strlit("double_octagon");
            assert("double_octagon"@.len() == 14);
            reveal_strlit("doubleoctagon");
            assert("doubleoctagon"@.len() == 13);
            reveal_strlit("triple_octagon");
            assert("triple_octagon"@.len() == 14);
            reveal_strlit("tripleoctagon");
            assert("tripleoctagon"@.len() == 13);
            reveal_strlit("inv_triangle");
            assert("inv_triangle"@.len() == 12);
            reveal_strlit("invtriangle");
            assert("invtriangle"@.len() == 11);
            reveal_strlit("inv_trapezium");
            assert("inv_trapezium"@.len() == 13);
            reveal_strlit("invtrapezium");
            assert("invtrapezium"@.len() == 12);
            reveal_strlit("inv_house");
            assert("inv_house"@.len() == 9);
            reveal_strlit("invhouse");
            assert("invhouse"@.len() == 8);
            reveal_strlit("m_diamond");
            assert("m_diamond"@.len() == 9);
            reveal_strlit("mdiamond");
            assert("mdiamond"@.len() == 8);
            reveal_strlit("Mdiamond");
            assert("Mdiamond"@.len() == 8);
            reveal_strlit("m_square");
            assert("m_square"@.len() == 8);
            reveal_strlit("msquare");
            assert("msquare"@.len() == 7 && "msquare"@[0] == 'm' && "Mcircle"@[0] == 'M');
            reveal_strlit("Msquare");
            assert("Msquare"@.len() == 7 && "Msquare"@[1] == 's' && "Mcircle"@[1] == 'c');
            reveal_strlit("m_circle");
            assert("m_circle"@.len() == 8);
            reveal_strlit("mcircle");
            assert("mcircle"@.len() == 7 && "mcircle"@[0] == 'm' && "Mcircle"@[0] == 'M');
            assert(kind_for_name("Mcircle"@) == Some(ShapeKind::MCircle));
        },
        ShapeKind::Rect => {
            reveal_strlit("rect");
            assert("rect"@.len() == 4);
            reveal_strlit("box");
            assert("box"@.len() == 3);
            reveal_strlit("polygon");
            assert("polygon"@.len() == 7);
            reveal_strlit("ellipse");
            assert("ellipse"@.len() == 7);
            reveal_strlit("oval");
            assert("oval"@.len() == 4 && "oval"@[0] == 'o' && "rect"@[0] == 'r');
            reveal_strlit("circle");
            assert("circle"@.len() == 6);
            reveal_strlit("point");
            assert("point"@.len() == 5);
            reveal_strlit("egg");
            assert("egg"@.len() == 3);
            reveal_strlit("triangle");
            assert("triangle"@.len() == 8);
            reveal_strlit("plaintext");
            assert("plaintext"@.len() == 9);
            reveal_strlit("plain");
            assert("plain"@.len() == 5);
            reveal_strlit("diamond");
            assert("diamond"@.len() == 7);
            reveal_strlit("trapezium");
            assert("trapezium"@.len() == 9);
            reveal_strlit("parallelogram");
            assert("parallelogram"@.len() == 13);
            reveal_strlit("house");
            assert("house"@.len() == 5);
            reveal_strlit("pentagon");
            assert("pentagon"@.len() == 8);
            reveal_strlit("hexagon");
            assert("hexagon"@.len() == 7);
            reveal_strlit("septagon");
            assert("septagon"@.len() == 8);
            reveal_strlit("octagon");
            assert("octagon"@.len() == 7);
            reveal_strlit("double_circle");
            assert("double_circle"@.len() == 13);
            reveal_strlit("doublecircle");
            assert("doublecircle"@.len() == 12);
            reveal_strlit("double_octagon");
            assert("double_octagon"@.len() == 14);
            reveal_strlit("doubleoctagon");
            assert("doubleoctagon"@.len() == 13);
            reveal_strlit("triple_octagon");
            assert("triple_octagon"@.len() == 14);
            reveal_strlit("tripleoctagon");
            assert("tripleoctagon"@.len() == 13);
            reveal_strlit("inv_triangle");
            assert("inv_triangle"@.len() == 12);
            reveal_strlit("invtriangle");
            assert("invtriangle"@.len() == 11);
            reveal_strlit("inv_trapezium");
            assert("inv_trapezium"@.len() == 13);
            reveal_strlit("invtrapezium");
            assert("invtrapezium"@.len() == 12);
            reveal_strlit("inv_house");
            assert("inv_house"@.len() == 9);
            reveal_strlit("invhouse");
            assert("invhouse"@.len() == 8);
            reveal_strlit("m_diamond");
            assert("m_diamond"@.len() == 9);
            reveal_strlit("mdiamond");
            assert("mdiamond"@.len() == 8);
            reveal_strlit("Mdiamond");
            assert("Mdiamond"@.len() == 8);
            reveal_strlit("m_square");
            assert("m_square"@.len() == 8);
            reveal_strlit("msquare");
            assert("msquare"@.len() == 7);
            reveal_strlit("Msquare");
            assert("Msquare"@.len() == 7);
            reveal_strlit("m_circle");
            assert("m_circle"@.len() == 8);
            reveal_strlit("mcircle");
            assert("mcircle"@.len() == 7);
            reveal_strlit("Mcircle");
            assert("Mcircle"@.len() == 7);
            assert(kind_for_name("rect"@) == Some(ShapeKind::Rect));
        },
        ShapeKind::Rectangle => {
            reveal_strlit("rectangle");
            assert("rectangle"@.len() == 9);
            reveal_strlit("box");
            assert("box"@.len() == 3);
            reveal_strlit("polygon");
            assert("polygon"@.len() == 7);
            reveal_strlit("ellipse");
            assert("ellipse"@.len() == 7);
            reveal_strlit("oval");
            assert("oval"@.len() == 4);
            reveal_strlit("circle");
            assert("circle"@.len() == 6);
            reveal_strlit("point");
            assert("point"@.len() == 5);
            reveal_strlit("egg");
            assert("egg"@.len() == 3);
            reveal_strlit("triangle");
            assert("triangle"@.len() == 8);
            reveal_strlit("plaintext");
            assert("plaintext"@.len() == 9 && "plaintext"@[0] == 'p' && "rectangle"@[0] == 'r');
            reveal_strlit("plain");
            assert("plain"@.len() == 5);
            reveal_strlit("diamond");
            assert("diamond"@.len() == 7);
            reveal_strlit("trapezium");
            assert("trapezium"@.len() == 9 && "trapezium"@[0] == 't' && "rectangle"@[0] == 'r');
            reveal_strlit("parallelogram");
            assert("parallelogram"@.len() == 13);
            reveal_strlit("house");
            assert("house"@.len() == 5);
            reveal_strlit("pentagon");
            assert("pentagon"@.len() == 8);
            reveal_strlit("hexagon");
            assert("hexagon"@.len() == 7);
            reveal_strlit("septagon");
            assert("septagon"@.len() == 8);
            reveal_strlit("octagon");
            assert("octagon"@.len() == 7);
            reveal_strlit("double_circle");
            assert("double_circle"@.len() == 13);
            reveal_strlit("doublecircle");
            assert("doublecircle"@.len() == 12);
            reveal_strlit("double_octagon");
            assert("double_octagon"@.len() == 14);
            reveal_strlit("doubleoctagon");
            assert("doubleoctagon"@.len() == 13);
            reveal_strlit("triple_octagon");
            assert("triple_octagon"@.len() == 14);
            reveal_strlit("tripleoctagon");
            assert("tripleoctagon"@.len() == 13);
            reveal_strlit("inv_triangle");
            assert("inv_triangle"@.len() == 12);
            reveal_strlit("invtriangle");
            assert("invtriangle"@.len() == 11);
            reveal_strlit("inv_trapezium");
            assert("inv_trapezium"@.len() == 13);
            reveal_strlit("invtrapezium");
            assert("invtrapezium"@.len() == 12);
            reveal_strlit("inv_house");
            assert("inv_house"@.len() == 9 && "inv_house"@[0] == 'i' && "rectangle"@[0] == 'r');
            reveal_strlit("invhouse");
            assert("invhouse"@.len() == 8);
            reveal_strlit("m_diamond");
            assert("m_diamond"@.len() == 9 && "m_diamond"@[0] == 'm' && "rectangle"@[0] == 'r');
            reveal_strlit("mdiamond");
            assert("mdiamond"@.len() == 8);
            reveal_strlit("Mdiamond");
            assert("Mdiamond"@.len() == 8);
            reveal_strlit("m_square");
            assert("m_square"@.len() == 8);
            reveal_strlit("msquare");
            assert("msquare"@.len() == 7);
            reveal_strlit("Msquare");
            assert("Msquare"@.len() == 7);
            reveal_strlit("m_circle");
            assert("m_circle"@.len() == 8);
            reveal_strlit("mcircle");
            assert("mcircle"@.len() == 7);
            reveal_strlit("Mcircle");
            assert("Mcircle"@.len() == 7);
            reveal_strlit("rect");
            assert("rect"@.len() == 4);
            assert(kind_for_name("rectangle"@) == Some(ShapeKind::Rectangle));
        },
        ShapeKind::Square => {
            reveal_strlit("square");
            assert("square"@.len() == 6);
            reveal_strlit("box");
            assert("box"@.len() == 3);
            reveal_strlit("polygon");
            assert("polygon"@.len() == 7);
            reveal_strlit("ellipse");
            assert("ellipse"@.len() == 7);
            reveal_strlit("oval");
            assert("oval"@.len() == 4);
            reveal_strlit("circle");
            assert("circle"@.len() == 6 && "circle"@[0] == 'c' && "square"@[0] == 's');
            reveal_strlit("point");
            assert("point"@.len() == 5);
            reveal_strlit("egg");
            assert("egg"@.len() == 3);
            reveal_strlit("triangle");
            assert("triangle"@.len() == 8);
            reveal_strlit("plaintext");
            assert("plaintext"@.len() == 9);
            reveal_strlit("plain");
            assert("plain"@.len() == 5);
            reveal_strlit("diamond");
            assert("diamond"@.len() == 7);
            reveal_strlit("trapezium");
            assert("trapezium"@.len() == 9);
            reveal_strlit("parallelogram");
            assert("parallelogram"@.len() == 13);
            reveal_strlit("house");
            assert("house"@.len() == 5);
            reveal_strlit("pentagon");
            assert("pentagon"@.len() == 8);
            reveal_strlit("hexagon");
            assert("hexagon"@.len() == 7);
            reveal_strlit("septagon");
            assert("septagon"@.len() == 8);
            reveal_strlit("octagon");
            assert("octagon"@.len() == 7);
            reveal_strlit("double_circle");
            assert("double_circle"@.len() == 13);
            reveal_strlit("doublecircle");
            assert("doublecircle"@.len() == 12);
            reveal_strlit("double_octagon");
            assert("double_octagon"@.len() == 14);
            reveal_strlit("doubleoctagon");
            assert("doubleoctagon"@.len() == 13);
            reveal_strlit("triple_octagon");
            assert("triple_octagon"@.len() == 14);
            reveal_strlit("tripleoctagon");
            assert("tripleoctagon"@.len() == 13);
            reveal_strlit("inv_triangle");
            assert("inv_triangle"@.len() == 12);
            reveal_strlit("invtriangle");
            assert("invtriangle"@.len() == 11);
            reveal_strlit("inv_trapezium");
            assert("inv_trapezium"@.len() == 13);
            reveal_strlit("invtrapezium");
            assert("invtrapezium"@.len() == 12);
            reveal_strlit("inv_house");
            assert("inv_house"@.len() == 9);
            reveal_strlit("invhouse");
            assert("invhouse"@.len() == 8);
            reveal_strlit("m_diamond");
            assert("m_diamond"@.len() == 9);
            reveal_strlit("mdiamond");
            assert("mdiamond"@.len() == 8);
            reveal_strlit("Mdiamond");
            assert("Mdiamond"@.len() == 8);
            reveal_strlit("m_square");
            assert("m_square"@.len() == 8);
            reveal_strlit("msquare");
            assert("msquare"@.len() == 7);
            reveal_strlit("Msquare");
            assert("Msquare"@.len() == 7);
            reveal_strlit("m_circle");
            assert("m_circle"@.len() == 8);
            reveal_strlit("mcircle");
            assert("mcircle"@.len() == 7);
            reveal_strlit("Mcircle");
            assert("Mcircle"@.len() == 7);
            reveal_strlit("rect");
            assert("rect"@.len() == 4);
            reveal_strlit("rectangle");
            assert("rectangle"@.len() == 9);
            assert(kind_for_name("square"@) == Some(ShapeKind::Square));
        },
        ShapeKind::Star => {
            reveal_strlit("star");
            assert("star"@.len() == 4);
            reveal_strlit("box");
            assert("box"@.len() == 3);
            reveal_strlit("polygon");
            assert("polygon"@.len() == 7);
            reveal_strlit("ellipse");
            assert("ellipse"@.len() == 7);
            reveal_strlit("oval");
            assert("oval"@.len() == 4 && "oval"@[0] == 'o' && "star"@[0] == 's');
            reveal_strlit("circle");
            assert("circle"@.len() == 6);
            reveal_strlit("point");
            assert("point"@.len() == 5);
            reveal_strlit("egg");
            assert("egg"@.len() == 3);
            reveal_strlit("triangle");
            assert("triangle"@.len() == 8);
            reveal_strlit("plaintext");
            assert("plaintext"@.len() == 9);
            reveal_strlit("plain");
            assert("plain"@.len() == 5);
            reveal_strlit("diamond");
            assert("diamond"@.len() == 7);
            reveal_strlit("trapezium");
            assert("trapezium"@.len() == 9);
            reveal_strlit("parallelogram");
            assert("parallelogram"@.len() == 13);
            reveal_strlit("house");
            assert("house"@.len() == 5);
            reveal_strlit("pentagon");
            assert("pentagon"@.len() == 8);
            reveal_strlit("hexagon");
            assert("hexagon"@.len() == 7);
            reveal_strlit("septagon");
            assert("septagon"@.len() == 8);
            reveal_strlit("octagon");
            assert("octagon"@.len() == 7);
            reveal_strlit("double_circle");
            assert("double_circle"@.len() == 13);
            reveal_strlit("doublecircle");
            assert("doublecircle"@.len() == 12);
            reveal_strlit("double_octagon");
            assert("double_octagon"@.len() == 14);
            reveal_strlit("doubleoctagon");
            assert("doubleoctagon"@.len() == 13);
            reveal_strlit("triple_octagon");
            assert("triple_octagon"@.len() == 14);
            reveal_strlit("tripleoctagon");
            assert("tripleoctagon"@.len() == 13);
            reveal_strlit("inv_triangle");
            assert("inv_triangle"@.len() == 12);
            reveal_strlit("invtriangle");
            assert("invtriangle"@.len() == 11);
            reveal_strlit("inv_trapezium");
            assert("inv_trapezium"@.len() == 13);
            reveal_strlit("invtrapezium");
            assert("invtrapezium"@.len() == 12);
            reveal_strlit("inv_house");
            assert("inv_house"@.len() == 9);
            reveal_strlit("invhouse");
            assert("invhouse"@.len() == 8);
            reveal_strlit("m_diamond");
            assert("m_diamond"@.len() == 9);
            reveal_strlit("mdiamond");
            assert("mdiamond"@.len() == 8);
            reveal_strlit("Mdiamond");
            assert("Mdiamond"@.len() == 8);
            reveal_strlit("m_square");
            assert("m_square"@.len() == 8);
            reveal_strlit("msquare");
            assert("msquare"@.len() == 7);
            reveal_strlit("Msquare");
            assert("Msquare"@.len() == 7);
            reveal_strlit("m_circle");
            assert("m_circle"@.len() == 8);
            reveal_strlit("mcircle");
            assert("mcircle"@.len() == 7);
            reveal_strlit("Mcircle");
            assert("Mcircle"@.len() == 7);
            reveal_strlit("rect");
            assert("rect"@.len() == 4 && "rect"@[0] == 'r' && "star"@[0] == 's');
            reveal_strlit("rectangle");
            assert("rectangle"@.len() == 9);
            reveal_strlit("square");
            assert("square"@.len() == 6);
            assert(kind_for_name("star"@) == Some(ShapeKind::Star));
        },
        ShapeKind::NoneShape => {
            reveal_strlit("none");
            assert("none"@.len() == 4);
            reveal_strlit("box");
            assert("box"@.len() == 3);
            reveal_strlit("polygon");
            assert("polygon"@.len() == 7);
            reveal_strlit("ellipse");
            assert("ellipse"@.len() == 7);
            reveal_strlit("oval");
            assert("oval"@.len() == 4 && "oval"@[0] == 'o' && "none"@[0] == 'n');
            reveal_strlit("circle");
            assert("circle"@.len() == 6);
            reveal_strlit("point");
            assert("point"@.len() == 5);
            reveal_strlit("egg");
            assert("egg"@.len() == 3);
            reveal_strlit("triangle");
            assert("triangle"@.len() == 8);
            reveal_strlit("plaintext");
            assert("plaintext"@.len() == 9);
            reveal_strlit("plain");
            assert("plain"@.len() == 5);
            reveal_strlit("diamond");
            assert("diamond"@.len() == 7);
            reveal_strlit("trapezium");
            assert("trapezium"@.len() == 9);
            reveal_strlit("parallelogram");
            assert("parallelogram"@.len() == 13);
            reveal_strlit("house");
            assert("house"@.len() == 5);
            reveal_strlit("pentagon");
            assert("pentagon"@.len() == 8);
            reveal_strlit("hexagon");
            assert("hexagon"@.len() == 7);
            reveal_strlit("septagon");
            assert("septagon"@.len() == 8);
            reveal_strlit("octagon");
            assert("octagon"@.len() == 7);
            reveal_strlit("double_circle");
            assert("double_circle"@.len() == 13);
            reveal_strlit("doublecircle");
            assert("doublecircle"@.len() == 12);
            reveal_strlit("double_octagon");
            assert("double_octagon"@.len() == 14);
            reveal_strlit("doubleoctagon");
            assert("doubleoctagon"@.len() == 13);
            reveal_strlit("triple_octagon");
            assert("triple_octagon"@.len() == 14);
            reveal_strlit("tripleoctagon");
            assert("tripleoctagon"@.len() == 13);
            reveal_strlit("inv_triangle");
            assert("inv_triangle"@.len() == 12);
            reveal_strlit("invtriangle");
            assert("invtriangle"@.len() == 11);
            reveal_strlit("inv_trapezium");
            assert("inv_trapezium"@.len() == 13);
            reveal_strlit("invtrapezium");
            assert("invtrapezium"@.len() == 12);
            reveal_strlit("inv_house");
            assert("inv_house"@.len() == 9);
            reveal_strlit("invhouse");
            assert("invhouse"@.len() == 8);
            reveal_strlit("m_diamond");
            assert("m_diamond"@.len() == 9);
            reveal_strlit("mdiamond");
            assert("mdiamond"@.len() == 8);
            reveal_strlit("Mdiamond");
            assert("Mdiamond"@.len() == 8);
            reveal_strlit("m_square");
            assert("m_square"@.len() == 8);
            reveal_strlit("msquare");
            assert("msquare"@.len() == 7);
            reveal_strlit("Msquare");
            assert("Msquare"@.len() == 7);
            reveal_strlit("m_circle");
            assert("m_circle"@.len() == 8);
            reveal_strlit("mcircle");
            assert("mcircle"@.len() == 7);
            reveal_strlit("Mcircle");
            assert("Mcircle"@.len() == 7);
            reveal_strlit("rect");
            assert("rect"@.len() == 4 && "rect"@[0] == 'r' && "none"@[0] == 'n');
            reveal_strlit("rectangle");
            assert("rectangle"@.len() == 9);
            reveal_strlit("square");
            assert("square"@.len() == 6);
            reveal_strlit("star");
            assert("star"@.len() == 4 && "star"@[0] == 's' && "none"@[0] == 'n');
            assert(kind_for_name("none"@) == Some(ShapeKind::NoneShape));
        },
        ShapeKind::Underline => {
            reveal_strlit("underline");
            assert("underline"@.len() == 9);
            reveal_strlit("box");
            assert("box"@.len() == 3);
            reveal_strlit("polygon");
            assert("polygon"@.len() == 7);
            reveal_strlit("ellipse");
            assert("ellipse"@.len() == 7);
            reveal_strlit("oval");
            assert("oval"@.len() == 4);
            reveal_strlit("circle");
            assert("circle"@.len() == 6);
            reveal_strlit("point");
            assert("point"@.len() == 5);
            reveal_strlit("egg");
            assert("egg"@.len() == 3);
            reveal_strlit("triangle");
            assert("triangle"@.len() == 8);
            reveal_strlit("plaintext");
            assert("plaintext"@.len() == 9 && "plaintext"@[0] == 'p' && "underline"@[0] == 'u');
            reveal_strlit("plain");
            assert("plain"@.len() == 5);
            reveal_strlit("diamond");
            assert("diamond"@.len() == 7);
            reveal_strlit("trapezium");
            assert("trapezium"@.len() == 9 && "trapezium"@[0] == 't' && "underline"@[0] == 'u');
            reveal_strlit("parallelogram");
            assert("parallelogram"@.len() == 13);
            reveal_strlit("house");
            assert("house"@.len() == 5);
            reveal_strlit("pentagon");
            assert("pentagon"@.len() == 8);
            reveal_strlit("hexagon");
            assert("hexagon"@.len() == 7);
            reveal_strlit("septagon");
            assert("septagon"@.len() == 8);
            reveal_strlit("octagon");
            assert("octagon"@.len() == 7);
            reveal_strlit("double_circle");
            assert("double_circle"@.len() == 13);
            reveal_strlit("doublecircle");
            assert("doublecircle"@.len() == 12);
            reveal_strlit("double_octagon");
            assert("double_octagon"@.len() == 14);
            reveal_strlit("doubleoctagon");
            assert("doubleoctagon"@.len() == 13);
            reveal_strlit("triple_octagon");
            assert("triple_octagon"@.len() == 14);
            reveal_strlit("tripleoctagon");
            assert("tripleoctagon"@.len() == 13);
            reveal_strlit("inv_triangle");
            assert("inv_triangle"@.len() == 12);
            reveal_strlit("invtriangle");
            assert("invtriangle"@.len() == 11);
            reveal_strlit("inv_trapezium");
            assert("inv_trapezium"@.len() == 13);
            reveal_strlit("invtrapezium");
            assert("invtrapezium"@.len() == 12);
            reveal_strlit("inv_house");
            assert("inv_house"@.len() == 9 && "inv_house"@[0] == 'i' && "underline"@[0] == 'u');
            reveal_strlit("invhouse");
            assert("invhouse"@.len() == 8);
            reveal_strlit("m_diamond");
            assert("m_diamond"@.len() == 9 && "m_diamond"@[0] == 'm' && "underline"@[0] == 'u');
            reveal_strlit("mdiamond");
            assert("mdiamond"@.len() == 8);
            reveal_strlit("Mdiamond");
            assert("Mdiamond"@.len() == 8);
            reveal_strlit("m_square");
            assert("m_square"@.len() == 8);
            reveal_strlit("msquare");
            assert("msquare"@.len() == 7);
            reveal_strlit("Msquare");
            assert("Msquare"@.len() == 7);
            reveal_strlit("m_circle");
            assert("m_circle"@.len() == 8);
            reveal_strlit("mcircle");
            assert("mcircle"@.len() == 7);
            reveal_strlit("Mcircle");
            assert("Mcircle"@.len() == 7);
            reveal_strlit("rect");
            assert("rect"@.len() == 4);
            reveal_strlit("rectangle");
            assert("rectangle"@.len() == 9 && "rectangle"@[0] == 'r' && "underline"@[0] == 'u');
            reveal_strlit("square");
            assert("square"@.len() == 6);
            reveal_strlit("star");
            assert("star"@.len() == 4);
            reveal_strlit("none");
            assert("none"@.len() == 4);
            assert(kind_for_name("underline"@) == Some(ShapeKind::Underline));
        },
        ShapeKind::Cylinder => {
            reveal_strlit("cylinder");
            assert("cylinder"@.len() == 8);
            reveal_strlit("box");
            assert("box"@.len() == 3);
            reveal_strlit("polygon");
            assert("polygon"@.len() == 7);
            reveal_strlit("ellipse");
            assert("ellipse"@.len() == 7);
            reveal_strlit("oval");
            assert("oval"@.len() == 4);
            reveal_strlit("circle");
            assert("circle"@.len() == 6);
            reveal_strlit("point");
            assert("point"@.len() == 5);
            reveal_strlit("egg");
            assert("egg"@.len() == 3);
            reveal_strlit("triangle");
            assert("triangle"@.len() == 8 && "triangle"@[0] == 't' && "cylinder"@[0] == 'c');
            reveal_strlit("plaintext");
            assert("plaintext"@.len() == 9);
            reveal_strlit("plain");
            assert("plain"@.len() == 5);
            reveal_strlit("diamond");
            assert("diamond"@.len() == 7);
            reveal_strlit("trapezium");
            assert("trapezium"@.len() == 9);
            reveal_strlit("parallelogram");
            assert("parallelogram"@.len() == 13);
            reveal_strlit("house");
            assert("house"@.len() == 5);
            reveal_strlit("pentagon");
            assert("pentagon"@.len() == 8 && "pentagon"@[0] == 'p' && "cylinder"@[0] == 'c');
            reveal_strlit("hexagon");
            assert("hexagon"@.len() == 7);
            reveal_strlit("septagon");
            assert("septagon"@.len() == 8 && "septagon"@[0] == 's' && "cylinder"@[0] == 'c');
            reveal_strlit("octagon");
            assert("octagon"@.len() == 7);
            reveal_strlit("double_circle");
            assert("double_circle"@.len() == 13);
            reveal_strlit("doublecircle");
            assert("doublecircle"@.len() == 12);
            reveal_strlit("double_octagon");
            assert("double_octagon"@.len() == 14);
            reveal_strlit("doubleoctagon");
            assert("doubleoctagon"@.len() == 13);
            reveal_strlit("triple_octagon");
            assert("triple_octagon"@.len() == 14);
            reveal_strlit("tripleoctagon");
            assert("tripleoctagon"@.len() == 13);
            reveal_strlit("inv_triangle");
            assert("inv_triangle"@.len() == 12);
            reveal_strlit("invtriangle");
            assert("invtriangle"@.len() == 11);
            reveal_strlit("inv_trapezium");
            assert("inv_trapezium"@.len() == 13);
            reveal_strlit("invtrapezium");
            assert("invtrapezium"@.len() == 12);
            reveal_strlit("inv_house");
            assert("inv_house"@.len() == 9);
            reveal_strlit("invhouse");
            assert("invhouse"@.len() == 8 && "invhouse"@[0] == 'i' && "cylinder"@[0] == 'c');
            reveal_strlit("m_diamond");
            assert("m_diamond"@.len() == 9);
            reveal_strlit("mdiamond");
            assert("mdiamond"@.len() == 8 && "mdiamond"@[0] == 'm' && "cylinder"@[0] == 'c');
            reveal_strlit("Mdiamond");
            assert("Mdiamond"@.len() == 8 && "Mdiamond"@[0] == 'M' && "cylinder"@[0] == 'c');
            reveal_strlit("m_square");
            assert("m_square"@.len() == 8 && "m_square"@[0] == 'm' && "cylinder"@[0] == 'c');
            reveal_strlit("msquare");
            assert("msquare"@.len() == 7);
            reveal_strlit("Msquare");
            assert("Msquare"@.len() == 7);
            reveal_strlit("m_circle");
            assert("m_circle"@.len() == 8 && "m_circle"@[0] == 'm' && "cylinder"@[0] == 'c');
            reveal_strlit("mcircle");
            assert("mcircle"@.len() == 7);
            reveal_strlit("Mcircle");
            assert("Mcircle"@.len() == 7);
            reveal_strlit("rect");
            assert("rect"@.len() == 4);
            reveal_strlit("rectangle");
            assert("rectangle"@.len() == 9);
            reveal_strlit("square");
            assert("square"@.len() == 6);
            reveal_strlit("star");
            assert("star"@.len() == 4);
            reveal_strlit("none");
            assert("none"@.len() == 4);
            reveal_strlit("underline");
            assert("underline"@.len() == 9);
            assert(kind_for_name("cylinder"@) == Some(ShapeKind::Cylinder));
        },
        ShapeKind::Note => {
            reveal_strlit("note");
            assert("note"@.len() == 4);
            reveal_strlit("box");
            assert("box"@.len() == 3);
            reveal_strlit("polygon");
            assert("polygon"@.len() == 7);
            reveal_strlit("ellipse");
            assert("ellipse"@.len() == 7);
            reveal_strlit("oval");
            assert("oval"@.len() == 4 && "oval"@[0] == 'o' && "note"@[0] == 'n');
            reveal_strlit("circle");
            assert("circle"@.len() == 6);
            reveal_strlit("point");
            assert("point"@.len() == 5);
            reveal_strlit("egg");
            assert("egg"@.len() == 3);
            reveal_strlit("triangle");
            assert("triangle"@.len() == 8);
            reveal_strlit("plaintext");
            assert("plaintext"@.len() == 9);
            reveal_strlit("plain");
            assert("plain"@.len() == 5);
            reveal_strlit("diamond");
            assert("diamond"@.len() == 7);
            reveal_strlit("trapezium");
            assert("trapezium"@.len() == 9);
            reveal_strlit("parallelogram");
            assert("parallelogram"@.len() == 13);
            reveal_strlit("house");
            assert("house"@.len() == 5);
            reveal_strlit("pentagon");
            assert("pentagon"@.len() == 8);
            reveal_strlit("hexagon");
            assert("hexagon"@.len() == 7);
            reveal_strlit("septagon");
            assert("septagon"@.len() == 8);
            reveal_strlit("octagon");
            assert("octagon"@.len() == 7);
            reveal_strlit("double_circle");
            assert("double_circle"@.len() == 13);
            reveal_strlit("doublecircle");
            assert("doublecircle"@.len() == 12);
            reveal_strlit("double_octagon");
            assert("double_octagon"@.len() == 14);
            reveal_strlit("doubleoctagon");
            assert("doubleoctagon"@.len() == 13);
            reveal_strlit("triple_octagon");
            assert("triple_octagon"@.len() == 14);
            reveal_strlit("tripleoctagon");
            assert("tripleoctagon"@.len() == 13);
            reveal_strlit("inv_triangle");
            assert("inv_triangle"@.len() == 12);
            reveal_strlit("invtriangle");
            assert("invtriangle"@.len() == 11);
            reveal_strlit("inv_trapezium");
            assert("inv_trapezium"@.len() == 13);
            reveal_strlit("invtrapezium");
            assert("invtrapezium"@.len() == 12);
            reveal_strlit("inv_house");
            assert("inv_house"@.len() == 9);
            reveal_strlit("invhouse");
            assert("invhouse"@.len() == 8);
            reveal_strlit("m_diamond");
            assert("m_diamond"@.len() == 9);
            reveal_strlit("mdiamond");
            assert("mdiamond"@.len() == 8);
            reveal_strlit("Mdiamond");
            assert("Mdiamond"@.len() == 8);
            reveal_strlit("m_square");
            assert("m_square"@.len() == 8);
            reveal_strlit("msquare");
            assert("msquare"@.len() == 7);
            reveal_strlit("Msquare");
            assert("Msquare"@.len() == 7);
            reveal_strlit("m_circle");
            assert("m_circle"@.len() == 8);
            reveal_strlit("mcircle");
            assert("mcircle"@.len() == 7);
            reveal_strlit("Mcircle");
            assert("Mcircle"@.len() == 7);
            reveal_strlit("rect");
            assert("rect"@.len() == 4 && "rect"@[0] == 'r' && "note"@[0] == 'n');
            reveal_strlit("rectangle");
            assert("rectangle"@.len() == 9);
            reveal_strlit("square");
            assert("square"@.len() == 6);
            reveal_strlit("star");
            assert("star"@.len() == 4 && "star"@[0] == 's' && "note"@[0] == 'n');
            reveal_strlit("none");
            assert("none"@.len() == 4 && "none"@[2] == 'n' && "note"@[2] == 't');
            reveal_strlit("underline");
            assert("underline"@.len() == 9);
            reveal_strlit("cylinder");
            assert("cylinder"@.len() == 8);
            assert(kind_for_name("note"@) == Some(ShapeKind::Note));
        },
        ShapeKind::Tab => {
            reveal_strlit("tab");
            assert("tab"@.len() == 3);
            reveal_strlit("box");
            assert("box"@.len() == 3 && "box"@[0] == 'b' && "tab"@[0] == 't');
            reveal_strlit("polygon");
            assert("polygon"@.len() == 7);
            reveal_strlit("ellipse");
            assert("ellipse"@.len() == 7);
            reveal_strlit("oval");
            assert("oval"@.len() == 4);
            reveal_strlit("circle");
            assert("circle"@.len() == 6);
            reveal_strlit("point");
            assert("point"@.len() == 5);
            reveal_strlit("egg");
            assert("egg"@.len() == 3 && "egg"@[0] == 'e' && "tab"@[0] == 't');
            reveal_strlit("triangle");
            assert("triangle"@.len() == 8);
            reveal_strlit("plaintext");
            assert("plaintext"@.len() == 9);
            reveal_strlit("plain");
            assert("plain"@.len() == 5);
            reveal_strlit("diamond");
            assert("diamond"@.len() == 7);
            reveal_strlit("trapezium");
            assert("trapezium"@.len() == 9);
            reveal_strlit("parallelogram");
            assert("parallelogram"@.len() == 13);
            reveal_strlit("house");
            assert("house"@.len() == 5);
            reveal_strlit("pentagon");
            assert("pentagon"@.len() == 8);
            reveal_strlit("hexagon");
            assert("hexagon"@.len() == 7);
            reveal_strlit("septagon");
            assert("septagon"@.len() == 8);
            reveal_strlit("octagon");
            assert("octagon"@.len() == 7);
            reveal_strlit("double_circle");
            assert("double_circle"@.len() == 13);
            reveal_strlit("doublecircle");
            assert("doublecircle"@.len() == 12);
            reveal_strlit("double_octagon");
            assert("double_octagon"@.len() == 14);
            reveal_strlit("doubleoctagon");
            assert("doubleoctagon"@.len() == 13);
            reveal_strlit("triple_octagon");
            assert("triple_octagon"@.len() == 14);
            reveal_strlit("tripleoctagon");
            assert("tripleoctagon"@.len() == 13);
            reveal_strlit("inv_triangle");
            assert("inv_triangle"@.len() == 12);
            reveal_strlit("invtriangle");
            assert("invtriangle"@.len() == 11);
            reveal_strlit("inv_trapezium");
            assert("inv_trapezium"@.len() == 13);
            reveal_strlit("invtrapezium");
            assert("invtrapezium"@.len() == 12);
            reveal_strlit("inv_house");
            assert("inv_house"@.len() == 9);
            reveal_strlit("invhouse");
            assert("invhouse"@.len() == 8);
            reveal_strlit("m_diamond");
            assert("m_diamond"@.len() == 9);
            reveal_strlit("mdiamond");
            assert("mdiamond"@.len() == 8);
            reveal_strlit("Mdiamond");
            assert("Mdiamond"@.len() == 8);
            reveal_strlit("m_square");
            assert("m_square"@.len() == 8);
            reveal_strlit("msquare");
            assert("msquare"@.len() == 7);
            reveal_strlit("Msquare");
            assert("Msquare"@.len() == 7);
            reveal_strlit("m_circle");
            assert("m_circle"@.len() == 8);
            reveal_strlit("mcircle");
            assert("mcircle"@.len() == 7);
            reveal_strlit("Mcircle");
            assert("Mcircle"@.len() == 7);
            reveal_strlit("rect");
            assert("rect"@.len() == 4);
            reveal_strlit("rectangle");
            assert("rectangle"@.len() == 9);
            reveal_strlit("square");
            assert("square"@.len() == 6);
            reveal_strlit("star");
            assert("star"@.len() == 4);
            reveal_strlit("none");
            assert("none"@.len() == 4);
            reveal_strlit("underline");
            assert("underline"@.len() == 9);
            reveal_strlit("cylinder");
            assert("cylinder"@.len() == 8);
            reveal_strlit("note");
            assert("note"@.len() == 4);
            assert(kind_for_name("tab"@) == Some(ShapeKind::Tab));
        },
        ShapeKind::Folder => {
            reveal_strlit("folder");
            assert("folder"@.len() == 6);
            reveal_strlit("box");
            assert("box"@.len() == 3);
            reveal_strlit("polygon");
            assert("polygon"@.len() == 7);
            reveal_strlit("ellipse");
            assert("ellipse"@.len() == 7);
            reveal_strlit("oval");
            assert("oval"@.len() == 4);
            reveal_strlit("circle");
            assert("circle"@.len() == 6 && "circle"@[0] == 'c' && "folder"@[0] == 'f');
            reveal_strlit("point");
            assert("point"@.len() == 5);
            reveal_strlit("egg");
            assert("egg"@.len() == 3);
            reveal_strlit("triangle");
            assert("triangle"@.len() == 8);
            reveal_strlit("plaintext");
            assert("plaintext"@.len() == 9);
            reveal_strlit("plain");
            assert("plain"@.len() == 5);
            reveal_strlit("diamond");
            assert("diamond"@.len() == 7);
            reveal_strlit("trapezium");
            assert("trapezium"@.len() == 9);
            reveal_strlit("parallelogram");
            assert("parallelogram"@.len() == 13);
            reveal_strlit("house");
            assert("house"@.len() == 5);
            reveal_strlit("pentagon");
            assert("pentagon"@.len() == 8);
            reveal_strlit("hexagon");
            assert("hexagon"@.len() == 7);
            reveal_strlit("septagon");
            assert("septagon"@.len() == 8);
            reveal_strlit("octagon");
            assert("octagon"@.len() == 7);
            reveal_strlit("double_circle");
            assert("double_circle"@.len() == 13);
            reveal_strlit("doublecircle");
            assert("doublecircle"@.len() == 12);
            reveal_strlit("double_octagon");
            assert("double_octagon"@.len() == 14);
            reveal_strlit("doubleoctagon");
            assert("doubleoctagon"@.len() == 13);
            reveal_strlit("triple_octagon");
            assert("triple_octagon"@.len() == 14);
            reveal_strlit("tripleoctagon");
            assert("tripleoctagon"@.len() == 13);
            reveal_strlit("inv_triangle");
            assert("inv_triangle"@.len() == 12);
            reveal_strlit("invtriangle");
            assert("invtriangle"@.len() == 11);
            reveal_strlit("inv_trapezium");
            assert("inv_trapezium"@.len() == 13);
            reveal_strlit("invtrapezium");
            assert("invtrapezium"@.len() == 12);
            reveal_strlit("inv_house");
            assert("inv_house"@.len() == 9);
            reveal_strlit("invhouse");
            assert("invhouse"@.len() == 8);
            reveal_strlit("m_diamond");
            assert("m_diamond"@.len() == 9);
            reveal_strlit("mdiamond");
            assert("mdiamond"@.len() == 8);
            reveal_strlit("Mdiamond");
            assert("Mdiamond"@.len() == 8);
            reveal_strlit("m_square");
            assert("m_square"@.len() == 8);
            reveal_strlit("msquare");
            assert("msquare"@.len() == 7);
            reveal_strlit("Msquare");
            assert("Msquare"@.len() == 7);
            reveal_strlit("m_circle");
            assert("m_circle"@.len() == 8);
            reveal_strlit("mcircle");
            assert("mcircle"@.len() == 7);
            reveal_strlit("Mcircle");
            assert("Mcircle"@.len() == 7);
            reveal_strlit("rect");
            assert("rect"@.len() == 4);
            reveal_strlit("rectangle");
            assert("rectangle"@.len() == 9);
            reveal_strlit("square");
            assert("square"@.len() == 6 && "square"@[0] == 's' && "folder"@[0] == 'f');
            reveal_strlit("star");
            assert("star"@.len() == 4);
            reveal_strlit("none");
            assert("none"@.len() == 4);
            reveal_strlit("underline");
            assert("underline"@.len() == 9);
            reveal_strlit("cylinder");
            assert("cylinder"@.len() == 8);
            reveal_strlit("note");
            assert("note"@.len() == 4);
            reveal_strlit("tab");
            assert("tab"@.len() == 3);
            assert(kind_for_name("folder"@) == Some(ShapeKind::Folder));
        },
        ShapeKind::Box3d => {
            reveal_strlit("box3d");
            assert("box3d"@.len() == 5);
            reveal_strlit("box");
            assert("box"@.len() == 3);
            reveal_strlit("polygon");
            assert("polygon"@.len() == 7);
            reveal_strlit("ellipse");
            assert("ellipse"@.len() == 7);
            reveal_strlit("oval");
            assert("oval"@.len() == 4);
            reveal_strlit("circle");
            assert("circle"@.len() == 6);
            reveal_strlit("point");
            assert("point"@.len() == 5 && "point"@[0] == 'p' && "box3d"@[0] == 'b');
            reveal_strlit("egg");
            assert("egg"@.len() == 3);
            reveal_strlit("triangle");
            assert("triangle"@.len() == 8);
            reveal_strlit("plaintext");
            assert("plaintext"@.len() == 9);
            reveal_strlit("plain");
            assert("plain"@.len() == 5 && "plain"@[0] == 'p' && "box3d"@[0] == 'b');
            reveal_strlit("diamond");
            assert("diamond"@.len() == 7);
            reveal_strlit("trapezium");
            assert("trapezium"@.len() == 9);
            reveal_strlit("parallelogram");
            assert("parallelogram"@.len() == 13);
            reveal_strlit("house");
            assert("house"@.len() == 5 && "house"@[0] == 'h' && "box3d"@[0] == 'b');
            reveal_strlit("pentagon");
            assert("pentagon"@.len() == 8);
            reveal_strlit("hexagon");
            assert("hexagon"@.len() == 7);
            reveal_strlit("septagon");
            assert("septagon"@.len() == 8);
            reveal_strlit("octagon");
            assert("octagon"@.len() == 7);
            reveal_strlit("double_circle");
            assert("double_circle"@.len() == 13);
            reveal_strlit("doublecircle");
            assert("doublecircle"@.len() == 12);
            reveal_strlit("double_octagon");
            assert("double_octagon"@.len() == 14);
            reveal_strlit("doubleoctagon");
            assert("doubleoctagon"@.len() == 13);
            reveal_strlit("triple_octagon");
            assert("triple_octagon"@.len() == 14);
            reveal_strlit("tripleoctagon");
            assert("tripleoctagon"@.len() == 13);
            reveal_strlit("inv_triangle");
            assert("inv_triangle"@.len() == 12);
            reveal_strlit("invtriangle");
            assert("invtriangle"@.len() == 11);
            reveal_strlit("inv_trapezium");
            assert("inv_trapezium"@.len() == 13);
            reveal_strlit("invtrapezium");
            assert("invtrapezium"@.len() == 12);
            reveal_strlit("inv_house");
            assert("inv_house"@.len() == 9);
            reveal_strlit("invhouse");
            assert("invhouse"@.len() == 8);
            reveal_strlit("m_diamond");
            assert("m_diamond"@.len() == 9);
            reveal_strlit("mdiamond");
            assert("mdiamond"@.len() == 8);
            reveal_strlit("Mdiamond");
            assert("Mdiamond"@.len() == 8);
            reveal_strlit("m_square");
            assert("m_square"@.len() == 8);
            reveal_strlit("msquare");
            assert("msquare"@.len() == 7);
            reveal_strlit("Msquare");
            assert("Msquare"@.len() == 7);
            reveal_strlit("m_circle");
            assert("m_circle"@.len() == 8);
            reveal_strlit("mcircle");
            assert("mcircle"@.len() == 7);
            reveal_strlit("Mcircle");
            assert("Mcircle"@.len() == 7);
            reveal_strlit("rect");
            assert("rect"@.len() == 4);
            reveal_strlit("rectangle");
            assert("rectangle"@.len() == 9);
            reveal_strlit("square");
            assert("square"@.len() == 6);
            reveal_strlit("star");
            assert("star"@.len() == 4);
            reveal_strlit("none");
            assert("none"@.len() == 4);
            reveal_strlit("underline");
            assert("underline"@.len() == 9);
            reveal_strlit("cylinder");
            assert("cylinder"@.len() == 8);
            reveal_strlit("note");
            assert("note"@.len() == 4);
            reveal_strlit("tab");
            assert("tab"@.len() == 3);
            reveal_strlit("folder");
            assert("folder"@.len() == 6);
            assert(kind_for_name("box3d"@) == Some(ShapeKind::Box3d));
        },
        ShapeKind::Component => {
            reveal_strlit("component");
            assert("component"@.len() == 9);
            reveal_strlit("box");
            assert("box"@.len() == 3);
            reveal_strlit("polygon");
            assert("polygon"@.len() == 7);
            reveal_strlit("ellipse");
            assert("ellipse"@.len() == 7);
            reveal_strlit("oval");
            assert("oval"@.len() == 4);
            reveal_strlit("circle");
            assert("circle"@.len() == 6);
            reveal_strlit("point");
            assert("point"@.len() == 5);
            reveal_strlit("egg");
            assert("egg"@.len() == 3);
            reveal_strlit("triangle");
            assert("triangle"@.len() == 8);
            reveal_strlit("plaintext");
            assert("plaintext"@.len() == 9 && "plaintext"@[0] == 'p' && "component"@[0] == 'c');
            reveal_strlit("plain");
            assert("plain"@.len() == 5);
            reveal_strlit("diamond");
            assert("diamond"@.len() == 7);
            reveal_strlit("trapezium");
            assert("trapezium"@.len() == 9 && "trapezium"@[0] == 't' && "component"@[0] == 'c');
            reveal_strlit("parallelogram");
            assert("parallelogram"@.len() == 13);
            reveal_strlit("house");
            assert("house"@.len() == 5);
            reveal_strlit("pentagon");
            assert("pentagon"@.len() == 8);
            reveal_strlit("hexagon");
            assert("hexagon"@.len() == 7);
            reveal_strlit("septagon");
            assert("septagon"@.len() == 8);
            reveal_strlit("octagon");
            assert("octagon"@.len() == 7);
            reveal_strlit("double_circle");
            assert("double_circle"@.len() == 13);
            reveal_strlit("doublecircle");
            assert("doublecircle"@.len() == 12);
            reveal_strlit("double_octagon");
            assert("double_octagon"@.len() == 14);
            reveal_strlit("doubleoctagon");
            assert("doubleoctagon"@.len() == 13);
            reveal_strlit("triple_octagon");
            assert("triple_octagon"@.len() == 14);
            reveal_strlit("tripleoctagon");
            assert("tripleoctagon"@.len() == 13);
            reveal_strlit("inv_triangle");
            assert("inv_triangle"@.len() == 12);
            reveal_strlit("invtriangle");
            assert("invtriangle"@.len() == 11);
            reveal_strlit("inv_trapezium");
            assert("inv_trapezium"@.len() == 13);
            reveal_strlit("invtrapezium");
            assert("invtrapezium"@.len() == 12);
            reveal_strlit("inv_house");
            assert("inv_house"@.len() == 9 && "inv_house"@[0] == 'i' && "component"@[0] == 'c');
            reveal_strlit("invhouse");
            assert("invhouse"@.len() == 8);
            reveal_strlit("m_diamond");
            assert("m_diamond"@.len() == 9 && "m_diamond"@[0] == 'm' && "component"@[0] == 'c');
            reveal_strlit("mdiamond");
            assert("mdiamond"@.len() == 8);
            reveal_strlit("Mdiamond");
            assert("Mdiamond"@.len() == 8);
            reveal_strlit("m_square");
            assert("m_square"@.len() == 8);
            reveal_strlit("msquare");
            assert("msquare"@.len() == 7);
            reveal_strlit("Msquare");
            assert("Msquare"@.len() == 7);
            reveal_strlit("m_circle");
            assert("m_circle"@.len() == 8);
            reveal_strlit("mcircle");
            assert("mcircle"@.len() == 7);
            reveal_strlit("Mcircle");
            assert("Mcircle"@.len() == 7);
            reveal_strlit("rect");
            assert("rect"@.len() == 4);
            reveal_strlit("rectangle");
            assert("rectangle"@.len() == 9 && "rectangle"@[0] == 'r' && "component"@[0] == 'c');
            reveal_strlit("square");
            assert("square"@.len() == 6);
            reveal_strlit("star");
            assert("star"@.len() == 4);
            reveal_strlit("none");
            assert("none"@.len() == 4);
            reveal_strlit("underline");
            assert("underline"@.len() == 9 && "underline"@[0] == 'u' && "component"@[0] == 'c');
            reveal_strlit("cylinder");
            assert("cylinder"@.len() == 8);
            reveal_strlit("note");
            assert("note"@.len() == 4);
            reveal_strlit("tab");
            assert("tab"@.len() == 3);
            reveal_strlit("folder");
            assert("folder"@.len() == 6);
            reveal_strlit("box3d");
            assert("box3d"@.len() == 5);
            assert(kind_for_name("component"@) == Some(ShapeKind::Component));
        },
        ShapeKind::Promoter => {
            reveal_strlit("promoter");
            assert("promoter"@.len() == 8);
            reveal_strlit("box");
            assert("box"@.len() == 3);
            reveal_strlit("polygon");
            assert("polygon"@.len() == 7);
            reveal_strlit("ellipse");
            assert("ellipse"@.len() == 7);
            reveal_strlit("oval");
            assert("oval"@.len() == 4);
            reveal_strlit("circle");
            assert("circle"@.len() == 6);
            reveal_strlit("point");
            assert("point"@.len() == 5);
            reveal_strlit("egg");
            assert("egg"@.len() == 3);
            reveal_strlit("triangle");
            assert("triangle"@.len() == 8 && "triangle"@[0] == 't' && "promoter"@[0] == 'p');
            reveal_strlit("plaintext");
            assert("plaintext"@.len() == 9);
            reveal_strlit("plain");
            assert("plain"@.len() == 5);
            reveal_strlit("diamond");
            assert("diamond"@.len() == 7);
            reveal_strlit("trapezium");
            assert("trapezium"@.len() == 9);
            reveal_strlit("parallelogram");
            assert("parallelogram"@.len() == 13);
            reveal_strlit("house");
            assert("house"@.len() == 5);
            reveal_strlit("pentagon");
            assert("pentagon"@.len() == 8 && "pentagon"@[1] == 'e' && "promoter"@[1] == 'r');
            reveal_strlit("hexagon");
            assert("hexagon"@.len() == 7);
            reveal_strlit("septagon");
            assert("septagon"@.len() == 8 && "septagon"@[0] == 's' && "promoter"@[0] == 'p');
            reveal_strlit("octagon");
            assert("octagon"@.len() == 7);
            reveal_strlit("double_circle");
            assert("double_circle"@.len() == 13);
            reveal_strlit("doublecircle");
            assert("doublecircle"@.len() == 12);
            reveal_strlit("double_octagon");
            assert("double_octagon"@.len() == 14);
            reveal_strlit("doubleoctagon");
            assert("doubleoctagon"@.len() == 13);
            reveal_strlit("triple_octagon");
            assert("triple_octagon"@.len() == 14);
            reveal_strlit("tripleoctagon");
            assert("tripleoctagon"@.len() == 13);
            reveal_strlit("inv_triangle");
            assert("inv_triangle"@.len() == 12);
            reveal_strlit("invtriangle");
            assert("invtriangle"@.len() == 11);
            reveal_strlit("inv_trapezium");
            assert("inv_trapezium"@.len() == 13);
            reveal_strlit("invtrapezium");
            assert("invtrapezium"@.len() == 12);
            reveal_strlit("inv_house");
            assert("inv_house"@.len() == 9);
            reveal_strlit("invhouse");
            assert("invhouse"@.len() == 8 && "invhouse"@[0] == 'i' && "promoter"@[0] == 'p');
            reveal_strlit("m_diamond");
            assert("m_diamond"@.len() == 9);
            reveal_strlit("mdiamond");
            assert("mdiamond"@.len() == 8 && "mdiamond"@[0] == 'm' && "promoter"@[0] == 'p');
            reveal_strlit("Mdiamond");
            assert("Mdiamond"@.len() == 8 && "Mdiamond"@[0] == 'M' && "promoter"@[0] == 'p');
            reveal_strlit("m_square");
            assert("m_square"@.len() == 8 && "m_square"@[0] == 'm' && "promoter"@[0] == 'p');
            reveal_strlit("msquare");
            assert("msquare"@.len() == 7);
            reveal_strlit("Msquare");
            assert("Msquare"@.len() == 7);
            reveal_strlit("m_circle");
            assert("m_circle"@.len() == 8 && "m_circle"@[0] == 'm' && "promoter"@[0] == 'p');
            reveal_strlit("mcircle");
            assert("mcircle"@.len() == 7);
            reveal_strlit("Mcircle");
            assert("Mcircle"@.len() == 7);
            reveal_strlit("rect");
            assert("rect"@.len() == 4);
            reveal_strlit("rectangle");
            assert("rectangle"@.len() == 9);
            reveal_strlit("square");
            assert("square"@.len() == 6);
            reveal_strlit("star");
            assert("star"@.len() == 4);
            reveal_strlit("none");
            assert("none"@.len() == 4);
            reveal_strlit("underline");
            assert("underline"@.len() == 9);
            reveal_strlit("cylinder");
            assert("cylinder"@.len() == 8 && "cylinder"@[0] == 'c' && "promoter"@[0] == 'p');
            reveal_strlit("note");
            assert("note"@.len() == 4);
            reveal_strlit("tab");
            assert("tab"@.len() == 3);
            reveal_strlit("folder");
            assert("folder"@.len() == 6);
            reveal_strlit("box3d");
            assert("box3d"@.len() == 5);
            reveal_strlit("component");
            assert("component"@.len() == 9);
            assert(kind_for_name("promoter"@) == Some(ShapeKind::Promoter));
        },
        ShapeKind::Cds => {
            reveal_strlit("cds");
            assert("cds"@.len() == 3);
            reveal_strlit("box");
            assert("box"@.len() == 3 && "box"@[0] == 'b' && "cds"@[0] == 'c');
            reveal_strlit("polygon");
            assert("polygon"@.len() == 7);
            reveal_strlit("ellipse");
            assert("ellipse"@.len() == 7);
            reveal_strlit("oval");
            assert("oval"@.len() == 4);
            reveal_strlit("circle");
            assert("circle"@.len() == 6);
            reveal_strlit("point");
            assert("point"@.len() == 5);
            reveal_strlit("egg");
            assert("egg"@.len() == 3 && "egg"@[0] == 'e' && "cds"@[0] == 'c');
            reveal_strlit("triangle");
            assert("triangle"@.len() == 8);
            reveal_strlit("plaintext");
            assert("plaintext"@.len() == 9);
            reveal_strlit("plain");
            assert("plain"@.len() == 5);
            reveal_strlit("diamond");
            assert("diamond"@.len() == 7);
            reveal_strlit("trapezium");
            assert("trapezium"@.len() == 9);
            reveal_strlit("parallelogram");
            assert("parallelogram"@.len() == 13);
            reveal_strlit("house");
            assert("house"@.len() == 5);
            reveal_strlit("pentagon");
            assert("pentagon"@.len() == 8);
            reveal_strlit("hexagon");
            assert("hexagon"@.len() == 7);
            reveal_strlit("septagon");
            assert("septagon"@.len() == 8);
            reveal_strlit("octagon");
            assert("octagon"@.len() == 7);
            reveal_strlit("double_circle");
            assert("double_circle"@.len() == 13);
            reveal_strlit("doublecircle");
            assert("doublecircle"@.len() == 12);
            reveal_strlit("double_octagon");
            assert("double_octagon"@.len() == 14);
            reveal_strlit("doubleoctagon");
            assert("doubleoctagon"@.len() == 13);
            reveal_strlit("triple_octagon");
            assert("triple_octagon"@.len() == 14);
            reveal_strlit("tripleoctagon");
            assert("tripleoctagon"@.len() == 13);
            reveal_strlit("inv_triangle");
            assert("inv_triangle"@.len() == 12);
            reveal_strlit("invtriangle");
            assert("invtriangle"@.len() == 11);
            reveal_strlit("inv_trapezium");
            assert("inv_trapezium"@.len() == 13);
            reveal_strlit("invtrapezium");
            assert("invtrapezium"@.len() == 12);
            reveal_strlit("inv_house");
            assert("inv_house"@.len() == 9);
            reveal_strlit("invhouse");
            assert("invhouse"@.len() == 8);
            reveal_strlit("m_diamond");
            assert("m_diamond"@.len() == 9);
            reveal_strlit("mdiamond");
            assert("mdiamond"@.len() == 8);
            reveal_strlit("Mdiamond");
            assert("Mdiamond"@.len() == 8);
            reveal_strlit("m_square");
            assert("m_square"@.len() == 8);
            reveal_strlit("msquare");
            assert("msquare"@.len() == 7);
            reveal_strlit("Msquare");
            assert("Msquare"@.len() == 7);
            reveal_strlit("m_circle");
            assert("m_circle"@.len() == 8);
            reveal_strlit("mcircle");
            assert("mcircle"@.len() == 7);
            reveal_strlit("Mcircle");
            assert("Mcircle"@.len() == 7);
            reveal_strlit("rect");
            assert("rect"@.len() == 4);
            reveal_strlit("rectangle");
            assert("rectangle"@.len() == 9);
            reveal_strlit("square");
            assert("square"@.len() == 6);
            reveal_strlit("star");
            assert("star"@.len() == 4);
            reveal_strlit("none");
            assert("none"@.len() == 4);
            reveal_strlit("underline");
            assert("underline"@.len() == 9);
            reveal_strlit("cylinder");
            assert("cylinder"@.len() == 8);
            reveal_strlit("note");
            assert("note"@.len() == 4);
            reveal_strlit("tab");
            assert("tab"@.len() == 3 && "tab"@[0] == 't' && "cds"@[0] == 'c');
            reveal_strlit("folder");
            assert("folder"@.len() == 6);
            reveal_strlit("box3d");
            assert("box3d"@.len() == 5);
            reveal_strlit("component");
            assert("component"@.len() == 9);
            reveal_strlit("promoter");
            assert("promoter"@.len() == 8);
            assert(kind_for_name("cds"@) == Some(ShapeKind::Cds));
        },
        ShapeKind::Terminator => {
            reveal_strlit("terminator");
            assert("terminator"@.len() == 10);
            reveal_strlit("box");
            assert("box"@.len() == 3);
            reveal_strlit("polygon");
            assert("polygon"@.len() == 7);
            reveal_strlit("ellipse");
            assert("ellipse"@.len() == 7);
            reveal_strlit("oval");
            assert("oval"@.len() == 4);
            reveal_strlit("circle");
            assert("circle"@.len() == 6);
            reveal_strlit("point");
            assert("point"@.len() == 5);
            reveal_strlit("egg");
            assert("egg"@.len() == 3);
            reveal_strlit("triangle");
            assert("triangle"@.len() == 8);
            reveal_strlit("plaintext");
            assert("plaintext"@.len() == 9);
            reveal_strlit("plain");
            assert("plain"@.len() == 5);
            reveal_strlit("diamond");
            assert("diamond"@.len() == 7);
            reveal_strlit("trapezium");
            assert("trapezium"@.len() == 9);
            reveal_strlit("parallelogram");
            assert("parallelogram"@.len() == 13);
            reveal_strlit("house");
            assert("house"@.len() == 5);
            reveal_strlit("pentagon");
            assert("pentagon"@.len() == 8);
            reveal_strlit("hexagon");
            assert("hexagon"@.len() == 7);
            reveal_strlit("septagon");
            assert("septagon"@.len() == 8);
            reveal_strlit("octagon");
            assert("octagon"@.len() == 7);
            reveal_strlit("double_circle");
            assert("double_circle"@.len() == 13);
            reveal_strlit("doublecircle");
            assert("doublecircle"@.len() == 12);
            reveal_strlit("double_octagon");
            assert("double_octagon"@.len() == 14);
            reveal_strlit("doubleoctagon");
            assert("doubleoctagon"@.len() == 13);
            reveal_strlit("triple_octagon");
            assert("triple_octagon"@.len() == 14);
            reveal_strlit("tripleoctagon");
            assert("tripleoctagon"@.len() == 13);
            reveal_strlit("inv_triangle");
            assert("inv_triangle"@.len() == 12);
            reveal_strlit("invtriangle");
            assert("invtriangle"@.len() == 11);
            reveal_strlit("inv_trapezium");
            assert("inv_trapezium"@.len() == 13);
            reveal_strlit("invtrapezium");
            assert("invtrapezium"@.len() == 12);
            reveal_strlit("inv_house");
            assert("inv_house"@.len() == 9);
            reveal_strlit("invhouse");
            assert("invhouse"@.len() == 8);
            reveal_strlit("m_diamond");
            assert("m_diamond"@.len() == 9);
            reveal_strlit("mdiamond");
            assert("mdiamond"@.len() == 8);
            reveal_strlit("Mdiamond");
            assert("Mdiamond"@.len() == 8);
            reveal_strlit("m_square");
            assert("m_square"@.len() == 8);
            reveal_strlit("msquare");
            assert("msquare"@.len() == 7);
            reveal_strlit("Msquare");
            assert("Msquare"@.len() == 7);
            reveal_strlit("m_circle");
            assert("m_circle"@.len() == 8);
            reveal_strlit("mcircle");
            assert("mcircle"@.len() == 7);
            reveal_strlit("Mcircle");
            assert("Mcircle"@.len() == 7);
            reveal_strlit("rect");
            assert("rect"@.len() == 4);
            reveal_strlit("rectangle");
            assert("rectangle"@.len() == 9);
            reveal_strlit("square");
            assert("square"@.len() == 6);
            reveal_strlit("star");
            assert("star"@.len() == 4);
            reveal_strlit("none");
            assert("none"@.len() == 4);
            reveal_strlit("underline");
            assert("underline"@.len() == 9);
            reveal_strlit("cylinder");
            assert("cylinder"@.len() == 8);
            reveal_strlit("note");
            assert("note"@.len() == 4);
            reveal_strlit("tab");
            assert("tab"@.len() == 3);
            reveal_strlit("folder");
            assert("folder"@.len() == 6);
            reveal_strlit("box3d");
            assert("box3d"@.len() == 5);
            reveal_strlit("component");
            assert("component"@.len() == 9);
            reveal_strlit("promoter");
            assert("promoter"@.len() == 8);
            reveal_strlit("cds");
            assert("cds"@.len() == 3);
            assert(kind_for_name("terminator"@) == Some(ShapeKind::Terminator));
        },
        ShapeKind::Utr => {
            reveal_strlit("utr");
            assert("utr"@.len() == 3);
            reveal_strlit("box");
            assert("box"@.len() == 3 && "box"@[0] == 'b' && "utr"@[0] == 'u');
            reveal_strlit("polygon");
            assert("polygon"@.len() == 7);
            reveal_strlit("ellipse");
            assert("ellipse"@.len() == 7);
            reveal_strlit("oval");
            assert("oval"@.len() == 4);
            reveal_strlit("circle");
            assert("circle"@.len() == 6);
            reveal_strlit("point");
            assert("point"@.len() == 5);
            reveal_strlit("egg");
            assert("egg"@.len() == 3 && "egg"@[0] == 'e' && "utr"@[0] == 'u');
            reveal_strlit("triangle");
            assert("triangle"@.len() == 8);
            reveal_strlit("plaintext");
            assert("plaintext"@.len() == 9);
            reveal_strlit("plain");
            assert("plain"@.len() == 5);
            reveal_strlit("diamond");
            assert("diamond"@.len() == 7);
            reveal_strlit("trapezium");
            assert("trapezium"@.len() == 9);
            reveal_strlit("parallelogram");
            assert("parallelogram"@.len() == 13);
            reveal_strlit("house");
            assert("house"@.len() == 5);
            reveal_strlit("pentagon");
            assert("pentagon"@.len() == 8);
            reveal_strlit("hexagon");
            assert("hexagon"@.len() == 7);
            reveal_strlit("septagon");
            assert("septagon"@.len() == 8);
            reveal_strlit("octagon");
            assert("octagon"@.len() == 7);
            reveal_strlit("double_circle");
            assert("double_circle"@.len() == 13);
            reveal_strlit("doublecircle");
            assert("doublecircle"@.len() == 12);
            reveal_strlit("double_octagon");
            assert("double_octagon"@.len() == 14);
            reveal_strlit("doubleoctagon");
            assert("doubleoctagon"@.len() == 13);
            reveal_strlit("triple_octagon");
            assert("triple_octagon"@.len() == 14);
            reveal_strlit("tripleoctagon");
            assert("tripleoctagon"@.len() == 13);
            reveal_strlit("inv_triangle");
            assert("inv_triangle"@.len() == 12);
            reveal_strlit("invtriangle");
            assert("invtriangle"@.len() == 11);
            reveal_strlit("inv_trapezium");
            assert("inv_trapezium"@.len() == 13);
            reveal_strlit("invtrapezium");
            assert("invtrapezium"@.len() == 12);
            reveal_strlit("inv_house");
            assert("inv_house"@.len() == 9);
            reveal_strlit("invhouse");
            assert("invhouse"@.len() == 8);
            reveal_strlit("m_diamond");
            assert("m_diamond"@.len() == 9);
            reveal_strlit("mdiamond");
            assert("mdiamond"@.len() == 8);
            reveal_strlit("Mdiamond");
            assert("Mdiamond"@.len() == 8);
            reveal_strlit("m_square");
            assert("m_square"@.len() == 8);
            reveal_strlit("msquare");
            assert("msquare"@.len() == 7);
            reveal_strlit("Msquare");
            assert("Msquare"@.len() == 7);
            reveal_strlit("m_circle");
            assert("m_circle"@.len() == 8);
            reveal_strlit("mcircle");
            assert("mcircle"@.len() == 7);
            reveal_strlit("Mcircle");
            assert("Mcircle"@.len() == 7);
            reveal_strlit("rect");
            assert("rect"@.len() == 4);
            reveal_strlit("rectangle");
            assert("rectangle"@.len() == 9);
            reveal_strlit("square");
            assert("square"@.len() == 6);
            reveal_strlit("star");
            assert("star"@.len() == 4);
            reveal_strlit("none");
            assert("none"@.len() == 4);
            reveal_strlit("underline");
            assert("underline"@.len() == 9);
            reveal_strlit("cylinder");
            assert("cylinder"@.len() == 8);
            reveal_strlit("note");
            assert("note"@.len() == 4);
            reveal_strlit("tab");
            assert("tab"@.len() == 3 && "tab"@[0] == 't' && "utr"@[0] == 'u');
            reveal_strlit("folder");
            assert("folder"@.len() == 6);
            reveal_strlit("box3d");
            assert("box3d"@.len() == 5);
            reveal_strlit("component");
            assert("component"@.len() == 9);
            reveal_strlit("promoter");
            assert("promoter"@.len() == 8);
            reveal_strlit("cds");
            assert("cds"@.len() == 3 && "cds"@[0] == 'c' && "utr"@[0] == 'u');
            reveal_strlit("terminator");
            assert("terminator"@.len() == 10);
            assert(kind_for_name("utr"@) == Some(ShapeKind::Utr));
        },
        ShapeKind::PrimerSite => {
            reveal_strlit("primersite");
            assert("primersite"@.len() == 10);
            reveal_strlit("box");
            assert("box"@.len() == 3);
            reveal_strlit("polygon");
            assert("polygon"@.len() == 7);
            reveal_strlit("ellipse");
            assert("ellipse"@.len() == 7);
            reveal_strlit("oval");
            assert("oval"@.len() == 4);
            reveal_strlit("circle");
            assert("circle"@.len() == 6);
            reveal_strlit("point");
            assert("point"@.len() == 5);
            reveal_strlit("egg");
            assert("egg"@.len() == 3);
            reveal_strlit("triangle");
            assert("triangle"@.len() == 8);
            reveal_strlit("plaintext");
            assert("plaintext"@.len() == 9);
            reveal_strlit("plain");
            assert("plain"@.len() == 5);
            reveal_strlit("diamond");
            assert("diamond"@.len() == 7);
            reveal_strlit("trapezium");
            assert("trapezium"@.len() == 9);
            reveal_strlit("parallelogram");
            assert("parallelogram"@.len() == 13);
            reveal_strlit("house");
            assert("house"@.len() == 5);
            reveal_strlit("pentagon");
            assert("pentagon"@.len() == 8);
            reveal_strlit("hexagon");
            assert("hexagon"@.len() == 7);
            reveal_strlit("septagon");
            assert("septagon"@.len() == 8);
            reveal_strlit("octagon");
            assert("octagon"@.len() == 7);
            reveal_strlit("double_circle");
            assert("double_circle"@.len() == 13);
            reveal_strlit("doublecircle");
            assert("doublecircle"@.len() == 12);
            reveal_strlit("double_octagon");
            assert("double_octagon"@.len() == 14);
            reveal_strlit("doubleoctagon");
            assert("doubleoctagon"@.len() == 13);
            reveal_strlit("triple_octagon");
            assert("triple_octagon"@.len() == 14);
            reveal_strlit("tripleoctagon");
            assert("tripleoctagon"@.len() == 13);
            reveal_strlit("inv_triangle");
            assert("inv_triangle"@.len() == 12);
            reveal_strlit("invtriangle");
            assert("invtriangle"@.len() == 11);
            reveal_strlit("inv_trapezium");
            assert("inv_trapezium"@.len() == 13);
            reveal_strlit("invtrapezium");
            assert("invtrapezium"@.len() == 12);
            reveal_strlit("inv_house");
            assert("inv_house"@.len() == 9);
            reveal_strlit("invhouse");
            assert("invhouse"@.len() == 8);
            reveal_strlit("m_diamond");
            assert("m_diamond"@.len() == 9);
            reveal_strlit("mdiamond");
            assert("mdiamond"@.len() == 8);
            reveal_strlit("Mdiamond");
            assert("Mdiamond"@.len() == 8);
            reveal_strlit("m_square");
            assert("m_square"@.len() == 8);
            reveal_strlit("msquare");
            assert("msquare"@.len() == 7);
            reveal_strlit("Msquare");
            assert("Msquare"@.len() == 7);
            reveal_strlit("m_circle");
            assert("m_circle"@.len() == 8);
            reveal_strlit("mcircle");
            assert("mcircle"@.len() == 7);
            reveal_strlit("Mcircle");
            assert("Mcircle"@.len() == 7);
            reveal_strlit("rect");
            assert("rect"@.len() == 4);
            reveal_strlit("rectangle");
            assert("rectangle"@.len() == 9);
            reveal_strlit("square");
            assert("square"@.len() == 6);
            reveal_strlit("star");
            assert("star"@.len() == 4);
            reveal_strlit("none");
            assert("none"@.len() == 4);
            reveal_strlit("underline");
            assert("underline"@.len() == 9);
            reveal_strlit("cylinder");
            assert("cylinder"@.len() == 8);
            reveal_strlit("note");
            assert("note"@.len() == 4);
            reveal_strlit("tab");
            assert("tab"@.len() == 3);
            reveal_strlit("folder");
            assert("folder"@.len() == 6);
            reveal_strlit("box3d");
            assert("box3d"@.len() == 5);
            reveal_strlit("component");
            assert("component"@.len() == 9);
            reveal_strlit("promoter");
            assert("promoter"@.len() == 8);
            reveal_strlit("cds");
            assert("cds"@.len() == 3);
            reveal_strlit("terminator");
            assert("terminator"@.len() == 10 && "terminator"@[0] == 't' && "primersite"@[0] == 'p');
            reveal_strlit("utr");
            assert("utr"@.len() == 3);
            reveal_strlit("primer_site");
            assert("primer_site"@.len() == 11);
            assert(kind_for_name("primersite"@) == Some(ShapeKind::PrimerSite));
        },
        ShapeKind::RestrictionSite => {
            reveal_strlit("restrictionsite");
            assert("restrictionsite"@.len() == 15);
            reveal_strlit("box");
            assert("box"@.len() == 3);
            reveal_strlit("polygon");
            assert("polygon"@.len() == 7);
            reveal_strlit("ellipse");
            assert("ellipse"@.len() == 7);
            reveal_strlit("oval");
            assert("oval"@.len() == 4);
            reveal_strlit("circle");
            assert("circle"@.len() == 6);
            reveal_strlit("point");
            assert("point"@.len() == 5);
            reveal_strlit("egg");
            assert("egg"@.len() == 3);
            reveal_strlit("triangle");
            assert("triangle"@.len() == 8);
            reveal_strlit("plaintext");
            assert("plaintext"@.len() == 9);
            reveal_strlit("plain");
            assert("plain"@.len() == 5);
            reveal_strlit("diamond");
            assert("diamond"@.len() == 7);
            reveal_strlit("trapezium");
            assert("trapezium"@.len() == 9);
            reveal_strlit("parallelogram");
            assert("parallelogram"@.len() == 13);
            reveal_strlit("house");
            assert("house"@.len() == 5);
            reveal_strlit("pentagon");
            assert("pentagon"@.len() == 8);
            reveal_strlit("hexagon");
            assert("hexagon"@.len() == 7);
            reveal_strlit("septagon");
            assert("septagon"@.len() == 8);
            reveal_strlit("octagon");
            assert("octagon"@.len() == 7);
            reveal_strlit("double_circle");
            assert("double_circle"@.len() == 13);
            reveal_strlit("doublecircle");
            assert("doublecircle"@.len() == 12);
            reveal_strlit("double_octagon");
            assert("double_octagon"@.len() == 14);
            reveal_strlit("doubleoctagon");
            assert("doubleoctagon"@.len() == 13);
            reveal_strlit("triple_octagon");
            assert("triple_octagon"@.len() == 14);
            reveal_strlit("tripleoctagon");
            assert("tripleoctagon"@.len() == 13);
            reveal_strlit("inv_triangle");
            assert("inv_triangle"@.len() == 12);
            reveal_strlit("invtriangle");
            assert("invtriangle"@.len() == 11);
            reveal_strlit("inv_trapezium");
            assert("inv_trapezium"@.len() == 13);
            reveal_strlit("invtrapezium");
            assert("invtrapezium"@.len() == 12);
            reveal_strlit("inv_house");
            assert("inv_house"@.len() == 9);
            reveal_strlit("invhouse");
            assert("invhouse"@.len() == 8);
            reveal_strlit("m_diamond");
            assert("m_diamond"@.len() == 9);
            reveal_strlit("mdiamond");
            assert("mdiamond"@.len() == 8);
            reveal_strlit("Mdiamond");
            assert("Mdiamond"@.len() == 8);
            reveal_strlit("m_square");
            assert("m_square"@.len() == 8);
            reveal_strlit("msquare");
            assert("msquare"@.len() == 7);
            reveal_strlit("Msquare");
            assert("Msquare"@.len() == 7);
            reveal_strlit("m_circle");
            assert("m_circle"@.len() == 8);
            reveal_strlit("mcircle");
            assert("mcircle"@.len() == 7);
            reveal_strlit("Mcircle");
            assert("Mcircle"@.len() == 7);
            reveal_strlit("rect");
            assert("rect"@.len() == 4);
            reveal_strlit("rectangle");
            assert("rectangle"@.len() == 9);
            reveal_strlit("square");
            assert("square"@.len() == 6);
            reveal_strlit("star");
            assert("star"@.len() == 4);
            reveal_strlit("none");
            assert("none"@.len() == 4);
            reveal_strlit("underline");
            assert("underline"@.len() == 9);
            reveal_strlit("cylinder");
            assert("cylinder"@.len() == 8);
            reveal_strlit("note");
            assert("note"@.len() == 4);
            reveal_strlit("tab");
            assert("tab"@.len() == 3);
            reveal_strlit("folder");
            assert("folder"@.len() == 6);
            reveal_strlit("box3d");
            assert("box3d"@.len() == 5);
            reveal_strlit("component");
            assert("component"@.len() == 9);
            reveal_strlit("promoter");
            assert("promoter"@.len() == 8);
            reveal_strlit("cds");
            assert("cds"@.len() == 3);
            reveal_strlit("terminator");
            assert("terminator"@.len() == 10);
            reveal_strlit("utr");
            assert("utr"@.len() == 3);
            reveal_strlit("primer_site");
            assert("primer_site"@.len() == 11);
            reveal_strlit("primersite");
            assert("primersite"@.len() == 10);
            reveal_strlit("restriction_site");
            assert("restriction_site"@.len() == 16);
            assert(kind_for_name("restrictionsite"@) == Some(ShapeKind::RestrictionSite));
        },
        ShapeKind::FivePOverhang => {
            reveal_strlit("fivepoverhang");
            assert("fivepoverhang"@.len() == 13);
            reveal_strlit("box");
            assert("box"@.len() == 3);
            reveal_strlit("polygon");
            assert("polygon"@.len() == 7);
            reveal_strlit("ellipse");
            assert("ellipse"@.len() == 7);
            reveal_strlit("oval");
            assert("oval"@.len() == 4);
            reveal_strlit("circle");
            assert("circle"@.len() == 6);
            reveal_strlit("point");
            assert("point"@.len() == 5);
            reveal_strlit("egg");
            assert("egg"@.len() == 3);
            reveal_strlit("triangle");
            assert("triangle"@.len() == 8);
            reveal_strlit("plaintext");
            assert("plaintext"@.len() == 9);
            reveal_strlit("plain");
            assert("plain"@.len() == 5);
            reveal_strlit("diamond");
            assert("diamond"@.len() == 7);
            reveal_strlit("trapezium");
            assert("trapezium"@.len() == 9);
            reveal_strlit("parallelogram");
            assert("parallelogram"@.len() == 13 && "parallelogram"@[0] == 'p' && "fivepoverhang"@[0] == 'f');
            reveal_strlit("house");
            assert("house"@.len() == 5);
            reveal_strlit("pentagon");
            assert("pentagon"@.len() == 8);
            reveal_strlit("hexagon");
            assert("hexagon"@.len() == 7);
            reveal_strlit("septagon");
            assert("septagon"@.len() == 8);
            reveal_strlit("octagon");
            assert("octagon"@.len() == 7);
            reveal_strlit("double_circle");
            assert("double_circle"@.len() == 13 && "double_circle"@[0] == 'd' && "fivepoverhang"@[0] == 'f');
            reveal_strlit("doublecircle");
            assert("doublecircle"@.len() == 12);
            reveal_strlit("double_octagon");
            assert("double_octagon"@.len() == 14);
            reveal_strlit("doubleoctagon");
            assert("doubleoctagon"@.len() == 13 && "doubleoctagon"@[0] == 'd' && "fivepoverhang"@[0] == 'f');
            reveal_strlit("triple_octagon");
            assert("triple_octagon"@.len() == 14);
            reveal_strlit("tripleoctagon");
            assert("tripleoctagon"@.len() == 13 && "tripleoctagon"@[0] == 't' && "fivepoverhang"@[0] == 'f');
            reveal_strlit("inv_triangle");
            assert("inv_triangle"@.len() == 12);
            reveal_strlit("invtriangle");
            assert("invtriangle"@.len() == 11);
            reveal_strlit("inv_trapezium");
            assert("inv_trapezium"@.len() == 13 && "inv_trapezium"@[0] == 'i' && "fivepoverhang"@[0] == 'f');
            reveal_strlit("invtrapezium");
            assert("invtrapezium"@.len() == 12);
            reveal_strlit("inv_house");
            assert("inv_house"@.len() == 9);
            reveal_strlit("invhouse");
            assert("invhouse"@.len() == 8);
            reveal_strlit("m_diamond");
            assert("m_diamond"@.len() == 9);
            reveal_strlit("mdiamond");
            assert("mdiamond"@.len() == 8);
            reveal_strlit("Mdiamond");
            assert("Mdiamond"@.len() == 8);
            reveal_strlit("m_square");
            assert("m_square"@.len() == 8);
            reveal_strlit("msquare");
            assert("msquare"@.len() == 7);
            reveal_strlit("Msquare");
            assert("Msquare"@.len() == 7);
            reveal_strlit("m_circle");
            assert("m_circle"@.len() == 8);
            reveal_strlit("mcircle");
            assert("mcircle"@.len() == 7);
            reveal_strlit("Mcircle");
            assert("Mcircle"@.len() == 7);
            reveal_strlit("rect");
            assert("rect"@.len() == 4);
            reveal_strlit("rectangle");
            assert("rectangle"@.len() == 9);
            reveal_strlit("square");
            assert("square"@.len() == 6);
            reveal_strlit("star");
            assert("star"@.len() == 4);
            reveal_strlit("none");
            assert("none"@.len() == 4);
            reveal_strlit("underline");
            assert("underline"@.len() == 9);
            reveal_strlit("cylinder");
            assert("cylinder"@.len() == 8);
            reveal_strlit("note");
            assert("note"@.len() == 4);
            reveal_strlit("tab");
            assert("tab"@.len() == 3);
            reveal_strlit("folder");
            assert("folder"@.len() == 6);
            reveal_strlit("box3d");
            assert("box3d"@.len() == 5);
            reveal_strlit("component");
            assert("component"@.len() == 9);
            reveal_strlit("promoter");
            assert("promoter"@.len() == 8);
            reveal_strlit("cds");
            assert("cds"@.len() == 3);
            reveal_strlit("terminator");
            assert("terminator"@.len() == 10);
            reveal_strlit("utr");
            assert("utr"@.len() == 3);
            reveal_strlit("primer_site");
            assert("primer_site"@.len() == 11);
            reveal_strlit("primersite");
            assert("primersite"@.len() == 10);
            reveal_strlit("restriction_site");
            assert("restriction_site"@.len() == 16);
            reveal_strlit("restrictionsite");
            assert("restrictionsite"@.len() == 15);
            reveal_strlit("five_p_overhang");
            assert("five_p_overhang"@.len() == 15);
            assert(kind_for_name("fivepoverhang"@) == Some(ShapeKind::FivePOverhang));
        },
        ShapeKind::ThreePOverhang => {
            reveal_strlit("threepoverhang");
            assert("threepoverhang"@.len() == 14);
            reveal_strlit("box");
            assert("box"@.len() == 3);
            reveal_strlit("polygon");
            assert("polygon"@.len() == 7);
            reveal_strlit("ellipse");
            assert("ellipse"@.len() == 7);
            reveal_strlit("oval");
            assert("oval"@.len() == 4);
            reveal_strlit("circle");
            assert("circle"@.len() == 6);
            reveal_strlit("point");
            assert("point"@.len() == 5);
            reveal_strlit("egg");
            assert("egg"@.len() == 3);
            reveal_strlit("triangle");
            assert("triangle"@.len() == 8);
            reveal_strlit("plaintext");
            assert("plaintext"@.len() == 9);
            reveal_strlit("plain");
            assert("plain"@.len() == 5);
            reveal_strlit("diamond");
            assert("diamond"@.len() == 7);
            reveal_strlit("trapezium");
            assert("trapezium"@.len() == 9);
            reveal_strlit("parallelogram");
            assert("parallelogram"@.len() == 13);
            reveal_strlit("house");
            assert("house"@.len() == 5);
            reveal_strlit("pentagon");
            assert("pentagon"@.len() == 8);
            reveal_strlit("hexagon");
            assert("hexagon"@.len() == 7);
            reveal_strlit("septagon");
            assert("septagon"@.len() == 8);
            reveal_strlit("octagon");
            assert("octagon"@.len() == 7);
            reveal_strlit("double_circle");
            assert("double_circle"@.len() == 13);
            reveal_strlit("doublecircle");
            assert("doublecircle"@.len() == 12);
            reveal_strlit("double_octagon");
            assert("double_octagon"@.len() == 14 && "double_octagon"@[0] == 'd' && "threepoverhang"@[0] == 't');
            reveal_strlit("doubleoctagon");
            assert("doubleoctagon"@.len() == 13);
            reveal_strlit("triple_octagon");
            assert("triple_octagon"@.len() == 14 && "triple_octagon"@[1] == 'r' && "threepoverhang"@[1] == 'h');
            reveal_strlit("tripleoctagon");
            assert("tripleoctagon"@.len() == 13);
            reveal_strlit("inv_triangle");
            assert("inv_triangle"@.len() == 12);
            reveal_strlit("invtriangle");
            assert("invtriangle"@.len() == 11);
            reveal_strlit("inv_trapezium");
            assert("inv_trapezium"@.len() == 13);
            reveal_strlit("invtrapezium");
            assert("invtrapezium"@.len() == 12);
            reveal_strlit("inv_house");
            assert("inv_house"@.len() == 9);
            reveal_strlit("invhouse");
            assert("invhouse"@.len() == 8);
            reveal_strlit("m_diamond");
            assert("m_diamond"@.len() == 9);
            reveal_strlit("mdiamond");
            assert("mdiamond"@.len() == 8);
            reveal_strlit("Mdiamond");
            assert("Mdiamond"@.len() == 8);
            reveal_strlit("m_square");
            assert("m_square"@.len() == 8);
            reveal_strlit("msquare");
            assert("msquare"@.len() == 7);
            reveal_strlit("Msquare");
            assert("Msquare"@.len() == 7);
            reveal_strlit("m_circle");
            assert("m_circle"@.len() == 8);
            reveal_strlit("mcircle");
            assert("mcircle"@.len() == 7);
            reveal_strlit("Mcircle");
            assert("Mcircle"@.len() == 7);
            reveal_strlit("rect");
            assert("rect"@.len() == 4);
            reveal_strlit("rectangle");
            assert("rectangle"@.len() == 9);
            reveal_strlit("square");
            assert("square"@.len() == 6);
            reveal_strlit("star");
            assert("star"@.len() == 4);
            reveal_strlit("none");
            assert("none"@.len() == 4);
            reveal_strlit("underline");
            assert("underline"@.len() == 9);
            reveal_strlit("cylinder");
            assert("cylinder"@.len() == 8);
            reveal_strlit("note");
            assert("note"@.len() == 4);
            reveal_strlit("tab");
            assert("tab"@.len() == 3);
            reveal_strlit("folder");
            assert("folder"@.len() == 6);
            reveal_strlit("box3d");
            assert("box3d"@.len() == 5);
            reveal_strlit("component");
            assert("component"@.len() == 9);
            reveal_strlit("promoter");
            assert("promoter"@.len() == 8);
            reveal_strlit("cds");
            assert("cds"@.len() == 3);
            reveal_strlit("terminator");
            assert("terminator"@.len() == 10);
            reveal_strlit("utr");
            assert("utr"@.len() == 3);
            reveal_strlit("primer_site");
            assert("primer_site"@.len() == 11);
            reveal_strlit("primersite");
            assert("primersite"@.len() == 10);
            reveal_strlit("restriction_site");
            assert("restriction_site"@.len() == 16);
            reveal_strlit("restrictionsite");
            assert("restrictionsite"@.len() == 15);
            reveal_strlit("five_p_overhang");
            assert("five_p_overhang"@.len() == 15);
            reveal_strlit("fivepoverhang");
            assert("fivepoverhang"@.len() == 13);
            reveal_strlit("three_p_overhang");
            assert("three_p_overhang"@.len() == 16);
            assert(kind_for_name("threepoverhang"@) == Some(ShapeKind::ThreePOverhang));
        },
        ShapeKind::NOverhang => {
            reveal_strlit("noverhang");
            assert("noverhang"@.len() == 9);
            reveal_strlit("box");
            assert("box"@.len() == 3);
            reveal_strlit("polygon");
            assert("polygon"@.len() == 7);
            reveal_strlit("ellipse");
            assert("ellipse"@.len() == 7);
            reveal_strlit("oval");
            assert("oval"@.len() == 4);
            reveal_strlit("circle");
            assert("circle"@.len() == 6);
            reveal_strlit("point");
            assert("point"@.len() == 5);
            reveal_strlit("egg");
            assert("egg"@.len() == 3);
            reveal_strlit("triangle");
            assert("triangle"@.len() == 8);
            reveal_strlit("plaintext");
            assert("plaintext"@.len() == 9 && "plaintext"@[0] == 'p' && "noverhang"@[0] == 'n');
            reveal_strlit("plain");
            assert("plain"@.len() == 5);
            reveal_strlit("diamond");
            assert("diamond"@.len() == 7);
            reveal_strlit("trapezium");
            assert("trapezium"@.len() == 9 && "trapezium"@[0] == 't' && "noverhang"@[0] == 'n');
            reveal_strlit("parallelogram");
            assert("parallelogram"@.len() == 13);
            reveal_strlit("house");
            assert("house"@.len() == 5);
            reveal_strlit("pentagon");
            assert("pentagon"@.len() == 8);
            reveal_strlit("hexagon");
            assert("hexagon"@.len() == 7);
            reveal_strlit("septagon");
            assert("septagon"@.len() == 8);
            reveal_strlit("octagon");
            assert("octagon"@.len() == 7);
            reveal_strlit("double_circle");
            assert("double_circle"@.len() == 13);
            reveal_strlit("doublecircle");
            assert("doublecircle"@.len() == 12);
            reveal_strlit("double_octagon");
            assert("double_octagon"@.len() == 14);
            reveal_strlit("doubleoctagon");
            assert("doubleoctagon"@.len() == 13);
            reveal_strlit("triple_octagon");
            assert("triple_octagon"@.len() == 14);
            reveal_strlit("tripleoctagon");
            assert("tripleoctagon"@.len() == 13);
            reveal_strlit("inv_triangle");
            assert("inv_triangle"@.len() == 12);
            reveal_strlit("invtriangle");
            assert("invtriangle"@.len() == 11);
            reveal_strlit("inv_trapezium");
            assert("inv_trapezium"@.len() == 13);
            reveal_strlit("invtrapezium");
            assert("invtrapezium"@.len() == 12);
            reveal_strlit("inv_house");
            assert("inv_house"@.len() == 9 && "inv_house"@[0] == 'i' && "noverhang"@[0] == 'n');
            reveal_strlit("invhouse");
            assert("invhouse"@.len() == 8);
            reveal_strlit("m_diamond");
            assert("m_diamond"@.len() == 9 && "m_diamond"@[0] == 'm' && "noverhang"@[0] == 'n');
            reveal_strlit("mdiamond");
            assert("mdiamond"@.len() == 8);
            reveal_strlit("Mdiamond");
            assert("Mdiamond"@.len() == 8);
            reveal_strlit("m_square");
            assert("m_square"@.len() == 8);
            reveal_strlit("msquare");
            assert("msquare"@.len() == 7);
            reveal_strlit("Msquare");
            assert("Msquare"@.len() == 7);
            reveal_strlit("m_circle");
            assert("m_circle"@.len() == 8);
            reveal_strlit("mcircle");
            assert("mcircle"@.len() == 7);
            reveal_strlit("Mcircle");
            assert("Mcircle"@.len() == 7);
            reveal_strlit("rect");
            assert("rect"@.len() == 4);
            reveal_strlit("rectangle");
            assert("rectangle"@.len() == 9 && "rectangle"@[0] == 'r' && "noverhang"@[0] == 'n');
            reveal_strlit("square");
            assert("square"@.len() == 6);
            reveal_strlit("star");
            assert("star"@.len() == 4);
            reveal_strlit("none");
            assert("none"@.len() == 4);
            reveal_strlit("underline");
            assert("underline"@.len() == 9 && "underline"@[0] == 'u' && "noverhang"@[0] == 'n');
            reveal_strlit("cylinder");
            assert("cylinder"@.len() == 8);
            reveal_strlit("note");
            assert("note"@.len() == 4);
            reveal_strlit("tab");
            assert("tab"@.len() == 3);
            reveal_strlit("folder");
            assert("folder"@.len() == 6);
            reveal_strlit("box3d");
            assert("box3d"@.len() == 5);
            reveal_strlit("component");
            assert("component"@.len() == 9 && "component"@[0] == 'c' && "noverhang"@[0] == 'n');
            reveal_strlit("promoter");
            assert("promoter"@.len() == 8);
            reveal_strlit("cds");
            assert("cds"@.len() == 3);
            reveal_strlit("terminator");
            assert("terminator"@.len() == 10);
            reveal_strlit("utr");
            assert("utr"@.len() == 3);
            reveal_strlit("primer_site");
            assert("primer_site"@.len() == 11);
            reveal_strlit("primersite");
            assert("primersite"@.len() == 10);
            reveal_strlit("restriction_site");
            assert("restriction_site"@.len() == 16);
            reveal_strlit("restrictionsite");
            assert("restrictionsite"@.len() == 15);
            reveal_strlit("five_p_overhang");
            assert("five_p_overhang"@.len() == 15);
            reveal_strlit("fivepoverhang");
            assert("fivepoverhang"@.len() == 13);
            reveal_strlit("three_p_overhang");
            assert("three_p_overhang"@.len() == 16);
            reveal_strlit("threepoverhang");
            assert("threepoverhang"@.len() == 14);
            reveal_strlit("n_overhang");
            assert("n_overhang"@.len() == 10);
            assert(kind_for_name("noverhang"@) == Some(ShapeKind::NOverhang));
        },
    }
}

/// Two shapes have the same Graphviz name exactly when they are of the same
/// family, whatever their outlines.
pub proof fn lemma_dot_names_distinct(s: GraphNodeShape, t: GraphNodeShape)
    ensures
        kind_dot_name(shape_kind(s)) == kind_dot_name(shape_kind(t)) <==> shape_kind(s) == shape_kind(t),
{
    lemma_dot_name_selects_kind(shape_kind(s));
    lemma_dot_name_selects_kind(shape_kind(t));
}

impl Default for GraphNodeShape {
    fn default() -> (s: Self)
        ensures
            shape_kind(s) == ShapeKind::Box,
            shape_outline(s) == Some(Outline::Rect(wide_min(), wide_max())),
    {
        GraphNodeShape::Box(wide_rect())
    }
}

} // verus!
