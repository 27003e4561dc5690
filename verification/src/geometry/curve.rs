//! Curves: line segments, circles and Bézier paths.
use vstd::prelude::*;
use crate::scalar::{Scalar, ONE_BITS};
use crate::types::Point2;

verus! {

/// A point of the plane.
#[derive(Clone, Copy, Debug)]
pub struct Point {
    pub x: Scalar,
    pub y: Scalar,
}

impl Point {
    /// The point with the coordinates `x` and `y`.
    pub fn new(x: Scalar, y: Scalar) -> (r: Point)
        ensures
            r.x == x,
            r.y == y,
    {
        Point { x, y }
    }

    /// The point as a coordinate pair.
    pub open spec fn pair(self) -> Point2 {
        (self.x, self.y)
    }
}

/// An affine map of the plane: `(x, y)` goes to
/// `(xx * x + xy * y + dx, yx * x + yy * y + dy)`.
#[derive(Clone, Copy, Debug)]
pub struct Affine {
    pub xx: Scalar,
    pub yx: Scalar,
    pub xy: Scalar,
    pub yy: Scalar,
    pub dx: Scalar,
    pub dy: Scalar,
}

impl Affine {
    /// The coefficients of the map that moves nothing.
    pub open spec fn identity_map() -> Affine {
        Affine {
            xx: Scalar { bits: ONE_BITS },
            yx: Scalar { bits: 0 },
            xy: Scalar { bits: 0 },
            yy: Scalar { bits: ONE_BITS },
            dx: Scalar { bits: 0 },
            dy: Scalar { bits: 0 },
        }
    }

    /// The map that moves nothing.
    pub fn identity() -> (r: Affine)
        ensures
            r == Affine::identity_map(),
    {
        Affine {
            xx: Scalar::one(),
            yx: Scalar::zero(),
            xy: Scalar::zero(),
            yy: Scalar::one(),
            dx: Scalar::zero(),
            dy: Scalar::zero(),
        }
    }
}

/// A straight segment from `p0` to `p1`.
#[derive(Clone, Copy, Debug)]
pub struct Line {
    pub p0: Point,
    pub p1: Point,
}

impl Line {
    /// The segment from `p0` to `p1`.
    pub fn new(p0: Point, p1: Point) -> (r: Line)
        ensures
            r.p0 == p0,
            r.p1 == p1,
    {
        Line { p0, p1 }
    }
}

/// A circle.
#[derive(Clone, Copy, Debug)]
pub struct Circle {
    pub center: Point,
    pub radius: Scalar,
}

impl Circle {
    /// The circle about `center`.
    pub fn new(center: Point, radius: Scalar) -> (r: Circle)
        ensures
            r.center == center,
            r.radius == radius,
    {
        Circle { center, radius }
    }

    /// The radius is above zero.
    pub open spec fn valid(self) -> bool {
        self.radius.positive()
    }

    /// Whether the radius is above zero.
    pub fn is_valid(&self) -> (r: bool)
        ensures
            r == self.valid(),
    {
        self.radius.is_positive()
    }
}

/// An element of a Bézier path.
#[derive(Clone, Copy, Debug)]
pub enum PathEl {
    /// Start a new sub-path at the point.
    MoveTo(Point),
    /// A straight segment to the point.
    LineTo(Point),
    /// A quadratic segment: control point, end point.
    QuadTo(Point, Point),
    /// A cubic segment: two control points, end point.
    CurveTo(Point, Point, Point),
    /// Close the sub-path.
    ClosePath,
}

/// A Bézier path: sub-paths, each begun by `MoveTo`.
#[derive(Clone, Debug)]
pub struct BezPath {
    pub elements: Vec<PathEl>,
}

impl View for BezPath {
    type V = Seq<PathEl>;

    open spec fn view(&self) -> Seq<PathEl> {
        self.elements@
    }
}

impl BezPath {
    /// The empty path.
    pub fn new() -> (r: BezPath)
        ensures
            r@ == Seq::<PathEl>::empty(),
    {
        BezPath { elements: Vec::new() }
    }

    /// The path of the elements.
    pub fn from_vec(elements: Vec<PathEl>) -> (r: BezPath)
        ensures
            r@ == elements@,
    {
        BezPath { elements }
    }

    /// The elements of the path.
    pub fn elements(&self) -> (r: &Vec<PathEl>)
        ensures
            r@ == self@,
    {
        &self.elements
    }

    /// Appends an element.
    pub fn push(&mut self, el: PathEl)
        ensures
            final(self)@ == old(self)@.push(el),
    {
        self.elements.push(el);
    }

    /// Starts a new sub-path at `p`.
    pub fn move_to(&mut self, p: Point)
        ensures
            final(self)@ == old(self)@.push(PathEl::MoveTo(p)),
    {
        self.elements.push(PathEl::MoveTo(p));
    }

    /// Appends a straight segment to `p`.
    pub fn line_to(&mut self, p: Point)
        ensures
            final(self)@ == old(self)@.push(PathEl::LineTo(p)),
    {
        self.elements.push(PathEl::LineTo(p));
    }

    /// Appends a quadratic segment to `p2` with the control point `p1`.
    pub fn quad_to(&mut self, p1: Point, p2: Point)
        ensures
            final(self)@ == old(self)@.push(PathEl::QuadTo(p1, p2)),
    {
        self.elements.push(PathEl::QuadTo(p1, p2));
    }

    /// Appends a cubic segment to `p3` with the control points `p1` and `p2`.
    pub fn curve_to(&mut self, p1: Point, p2: Point, p3: Point)
        ensures
            final(self)@ == old(self)@.push(PathEl::CurveTo(p1, p2, p3)),
    {
        self.elements.push(PathEl::CurveTo(p1, p2, p3));
    }

    /// Closes the sub-path.
    pub fn close_path(&mut self)
        ensures
            final(self)@ == old(self)@.push(PathEl::ClosePath),
    {
        self.elements.push(PathEl::ClosePath);
    }

    /// The path ends with `ClosePath`.
    pub open spec fn ends_closed(self) -> bool {
        self@.len() > 0 && self@.last() == PathEl::ClosePath
    }
}

/// A curve of the registry.
#[derive(Clone, Debug)]
pub enum Curve {
    Line(Line),
    Circle(Circle),
    BezPath(BezPath),
}

impl Curve {
    /// A line is never closed, a circle always is, and a path is closed
    /// exactly if its last element is `ClosePath`.
    pub open spec fn closed(self) -> bool {
        match self {
            Curve::Line(_) => false,
            Curve::Circle(_) => true,
            Curve::BezPath(path) => path.ends_closed(),
        }
    }

    /// The polyline of a curve that needs no sampling: the two end points of
    /// a line. Circles and paths have none.
    pub open spec fn exact_polyline(self) -> Option<Seq<Point2>> {
        match self {
            Curve::Line(line) => Some(seq![line.p0.pair(), line.p1.pair()]),
            _ => None,
        }
    }

    /// Whether the curve forms a loop.
    pub fn is_closed(&self) -> (r: bool)
        ensures
            r == self.closed(),
    {
        match self {
            Curve::Line(_) => false,
            Curve::Circle(_) => true,
            Curve::BezPath(path) => {
                let n: usize = path.elements.len();
                if n == 0 {
                    false
                } else {
                    match path.elements[n - 1] {
                        PathEl::ClosePath => true,
                        _ => false,
                    }
                }
            },
        }
    }

    /// The curve as a polyline, where that needs no sampling: a line gives its
    /// two end points, whatever the tolerance. A circle or a path gives
    /// `None`: the host samples it within the tolerance.
    pub fn flatten(&self, tolerance: Scalar) -> (r: Option<Vec<Point2>>)
        ensures
            match r {
                Some(points) => self.exact_polyline() == Some(points@),
                None => self.exact_polyline().is_none(),
            },
    {
        match self {
            Curve::Line(line) => {
                let mut points: Vec<Point2> = Vec::new();
                points.push((line.p0.x, line.p0.y));
                points.push((line.p1.x, line.p1.y));
                assert(points@ =~= seq![line.p0.pair(), line.p1.pair()]);
                Some(points)
            },
            _ => None,
        }
    }
}

} // verus!
