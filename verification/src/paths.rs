//! Polylines: lifting to a depth, closing, copying.
use vstd::prelude::*;
use crate::lists::copy_list;
use crate::scalar::Scalar;
use crate::types::{Point2, Point3, Toolpath};

verus! {

/// Two points of the plane with numerically equal coordinates.
pub open spec fn same_point2(a: Point2, b: Point2) -> bool {
    a.0.same(b.0) && a.1.same(b.1)
}

/// Two points of space with numerically equal coordinates.
pub open spec fn same_point3(a: Point3, b: Point3) -> bool {
    a.0.same(b.0) && a.1.same(b.1) && a.2.same(b.2)
}

/// A polyline at the height `z`.
pub open spec fn lifted(path: Seq<Point2>, z: Scalar) -> Seq<Point3> {
    Seq::new(path.len(), |i: int| (path[i].0, path[i].1, z))
}

/// A polyline that ends where it starts: the first point is appended unless
/// the last point equals it. An empty polyline stays empty.
pub open spec fn closed_loop(points: Seq<Point2>) -> Seq<Point2> {
    if points.len() > 0 && !same_point2(points[0], points.last()) {
        points.push(points[0])
    } else {
        points
    }
}

/// A path that ends where it starts: the first point is appended unless the
/// last point equals it. An empty path stays empty.
pub open spec fn closed_ring(path: Seq<Point3>) -> Seq<Point3> {
    if path.len() > 0 && !same_point3(path[0], path.last()) {
        path.push(path[0])
    } else {
        path
    }
}

/// The views of a list of polylines.
pub open spec fn loops_view(loops: Seq<Vec<Point2>>) -> Seq<Seq<Point2>> {
    Seq::new(loops.len(), |i: int| loops[i]@)
}

/// The views of a list of paths.
pub open spec fn paths_view(paths: Seq<Vec<Point3>>) -> Seq<Seq<Point3>> {
    Seq::new(paths.len(), |i: int| paths[i]@)
}

/// Appending to a list of polylines appends to its views.
pub proof fn lemma_loops_view_push(loops: Seq<Vec<Point2>>, next: Vec<Point2>)
    ensures
        loops_view(loops.push(next)) == loops_view(loops).push(next@),
{
    assert(loops_view(loops.push(next)) =~= loops_view(loops).push(next@));
}

/// Appending to a list of paths appends to its views.
pub proof fn lemma_paths_view_push(paths: Seq<Vec<Point3>>, next: Vec<Point3>)
    ensures
        paths_view(paths.push(next)) == paths_view(paths).push(next@),
{
    assert(paths_view(paths.push(next)) =~= paths_view(paths).push(next@));
}

/// Whether two points of the plane are numerically equal.
pub fn points_equal2(a: &Point2, b: &Point2) -> (r: bool)
    ensures
        r == same_point2(*a, *b),
{
    a.0.same_as(b.0) && a.1.same_as(b.1)
}

/// Whether two points of space are numerically equal.
pub fn points_equal3(a: &Point3, b: &Point3) -> (r: bool)
    ensures
        r == same_point3(*a, *b),
{
    a.0.same_as(b.0) && a.1.same_as(b.1) && a.2.same_as(b.2)
}

/// The polyline at the height `z`.
pub fn lift_path(path: &Vec<Point2>, z: Scalar) -> (r: Vec<Point3>)
    ensures
        r@ == lifted(path@, z),
{
    let mut out: Vec<Point3> = Vec::new();
    let mut i: usize = 0;
    while i < path.len()
        invariant
            0 <= i <= path@.len(),
            out@ == lifted(path@.take(i as int), z),
        decreases path@.len() - i,
    {
        out.push((path[i].0, path[i].1, z));
        assert(out@ =~= lifted(path@.take(i + 1), z));
        i = i + 1;
    }
    assert(path@.take(path@.len() as int) =~= path@);
    out
}

/// Closes a polyline: appends its first point unless its last point equals it.
pub fn close_loop(points: &mut Vec<Point2>)
    ensures
        final(points)@ == closed_loop(old(points)@),
{
    let n: usize = points.len();
    if n > 0 {
        let first: Point2 = points[0];
        let last: Point2 = points[n - 1];
        if !points_equal2(&first, &last) {
            points.push(first);
        }
    }
}

/// Closes a path: appends its first point unless its last point equals it.
pub fn close_ring(path: &mut Vec<Point3>)
    ensures
        final(path)@ == closed_ring(old(path)@),
{
    let n: usize = path.len();
    if n > 0 {
        let first: Point3 = path[0];
        let last: Point3 = path[n - 1];
        if !points_equal3(&first, &last) {
            path.push(first);
        }
    }
}

/// Every point of every path lies at the height `z`.
pub open spec fn all_at_height(paths: Seq<Seq<Point3>>, z: Scalar) -> bool {
    forall|i: int, j: int|
        0 <= i < paths.len() && 0 <= j < paths[i].len() ==> (#[trigger] paths[i][j]).2 == z
}

/// A polyline that is lifted to a height and closed lies at that height.
pub proof fn lemma_closed_ring_height(points: Seq<Point2>, z: Scalar)
    ensures
        forall|j: int|
            0 <= j < closed_ring(lifted(points, z)).len() ==> (#[trigger] closed_ring(
                lifted(points, z),
            )[j]).2 == z,
{
}

impl Toolpath {
    /// A copy of the toolpath.
    pub fn duplicate(&self) -> (r: Toolpath)
        ensures
            r@ == self@,
    {
        let mut paths: Vec<Vec<Point3>> = Vec::new();
        let mut i: usize = 0;
        while i < self.paths.len()
            invariant
                0 <= i <= self.paths@.len(),
                paths@.len() == i,
                forall|j: int| 0 <= j < i ==> paths@[j]@ == self.paths@[j]@,
            decreases self.paths@.len() - i,
        {
            paths.push(copy_list(&self.paths[i]));
            i = i + 1;
        }
        let copy = Toolpath { paths };
        assert(copy@ =~= self@);
        copy
    }
}

} // verus!
