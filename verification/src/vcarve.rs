//! V-carving: variable-depth paths along the medial axis of a polygon.
//!
//! A V-bit with half angle `a` that runs along the medial axis cuts to the
//! depth `d / tan(a)`, where `d` is the distance to the nearest edge. With a
//! maximal depth the carving has a flat bottom: inside the limit distance
//! `L = max_depth * tan(a)` from the boundary the paths follow the axis, and
//! the loops at the limit distance are traced at the maximal depth.
//!
//! The host's kernels compute the straight skeleton, the distances, the
//! depths and the offset loops. This module makes the toolpath of them.
use vstd::prelude::*;
use crate::error::CamError;
use crate::paths::{
    all_at_height, close_ring, closed_ring, lemma_closed_ring_height, lemma_paths_view_push,
    lift_path, lifted, loops_view, paths_view,
};
use crate::scalar::Scalar;
use crate::types::{Point2, Point3, Tool, ToolType, Toolpath};

verus! {

/// The bit pattern of the largest finite number, which stands for a limit
/// distance and a maximal depth without bound.
pub const UNBOUNDED_BITS: u64 = 0x7fef_ffff_ffff_ffff;

/// A polygon to carve: an outer loop and the loops of its holes.
#[derive(Clone, Debug)]
pub struct CarvePolygon {
    pub outer: Vec<Point2>,
    pub holes: Vec<Vec<Point2>>,
}

/// A vertex of a polyline of the medial axis, with what the kernel measured there.
#[derive(Clone, Copy, Debug)]
pub struct SkeletonVertex {
    pub x: Scalar,
    pub y: Scalar,
    /// The distance `d` from the vertex to the nearest edge of the polygon.
    pub distance: Scalar,
    /// The height of the tool at the vertex: `-(d / tan(a))`.
    pub z: Scalar,
    /// The point between the previous vertex and this one at which the
    /// distance to the boundary is the limit distance, by linear
    /// interpolation. Read only where the two vertices lie on different
    /// sides of the limit.
    pub crossing: Point2,
}

/// What the kernels computed for a V-carve.
#[derive(Clone, Debug)]
pub struct CarveMeasurements {
    /// The limit distance `max_depth * tan(a)`. Not read without a maximal depth.
    pub limit_distance: Scalar,
    /// The polygons offset inwards by the limit distance. Not read without a
    /// maximal depth.
    pub walls: Vec<CarvePolygon>,
    /// The polylines of the straight skeletons of the polygons, in the order
    /// of the polygons.
    pub skeleton: Vec<Vec<SkeletonVertex>>,
}

/// The included angle of a V-bit.
pub open spec fn vbit_angle_of(tool: Tool) -> Option<Scalar> {
    match tool.tool_type {
        ToolType::VBit { angle_degrees } => Some(angle_degrees),
        _ => None,
    }
}

/// The included angle of the tool in degrees. Fails with
/// `VCarveRequiresVBit` for a tool that is not a V-bit.
pub fn vbit_angle(tool: &Tool) -> (r: Result<Scalar, CamError>)
    ensures
        r == match vbit_angle_of(*tool) {
            Some(angle) => Ok::<Scalar, CamError>(angle),
            None => Err::<Scalar, CamError>(CamError::VCarveRequiresVBit),
        },
{
    match tool.tool_type {
        ToolType::VBit { angle_degrees } => Ok(angle_degrees),
        _ => Err(CamError::VCarveRequiresVBit),
    }
}

impl CarvePolygon {
    /// Every loop of the polygon has at least three points.
    pub open spec fn has_area(self) -> bool {
        &&& self.outer@.len() >= 3
        &&& forall|i: int| 0 <= i < self.holes@.len() ==> (#[trigger] self.holes@[i])@.len() >= 3
    }

    /// Checks that the medial axis of the polygon can be computed: fails
    /// with `DegenerateLoop` if a loop has fewer than three points.
    pub fn check_loops(&self) -> (r: Result<(), CamError>)
        ensures
            r == if self.has_area() {
                Ok::<(), CamError>(())
            } else {
                Err::<(), CamError>(CamError::DegenerateLoop)
            },
    {
        if self.outer.len() < 3 {
            return Err(CamError::DegenerateLoop);
        }
        let mut i: usize = 0;
        while i < self.holes.len()
            invariant
                0 <= i <= self.holes@.len(),
                self.outer@.len() >= 3,
                forall|j: int| 0 <= j < i ==> (#[trigger] self.holes@[j])@.len() >= 3,
            decreases self.holes@.len() - i,
        {
            if self.holes[i].len() < 3 {
                return Err(CamError::DegenerateLoop);
            }
            i = i + 1;
        }
        Ok(())
    }
}

/// The limit distance in force: the measured one with a maximal depth, else unbounded.
pub open spec fn limit_in_force(max_depth: Option<Scalar>, measured: Scalar) -> Scalar {
    match max_depth {
        Some(_) => measured,
        None => Scalar { bits: UNBOUNDED_BITS },
    }
}

/// The height of the flat bottom: `-max_depth`, or without a maximal depth
/// the negative of the largest finite number.
pub open spec fn floor_height(max_depth: Option<Scalar>) -> Scalar {
    match max_depth {
        Some(depth) => depth.negated(),
        None => (Scalar { bits: UNBOUNDED_BITS }).negated(),
    }
}

/// The vertex is no farther from the boundary than the limit distance.
pub open spec fn shallow(v: SkeletonVertex, limit: Scalar) -> bool {
    v.distance.at_most(limit)
}

/// The tool position at a vertex.
pub open spec fn vertex_point(v: SkeletonVertex) -> Point3 {
    (v.x, v.y, v.z)
}

/// The tool position where the edge that ends in `v` crosses the limit
/// distance: on the flat bottom.
pub open spec fn crossing_point(v: SkeletonVertex, floor: Scalar) -> Point3 {
    (v.crossing.0, v.crossing.1, floor)
}

/// The paths of a polyline after one more edge, from `prev` to `curr`. The
/// state is the finished paths and the path under way.
///
/// - Both ends shallow: the edge is cut; it starts the path at `prev` if
///   none is under way.
/// - From shallow to deep: the edge is cut up to the crossing, where the
///   path ends.
/// - From deep to shallow: a path starts at the crossing and goes on to `curr`.
/// - Both ends deep: nothing is cut.
pub open spec fn walk_step(
    state: (Seq<Seq<Point3>>, Seq<Point3>),
    prev: SkeletonVertex,
    curr: SkeletonVertex,
    limit: Scalar,
    floor: Scalar,
) -> (Seq<Seq<Point3>>, Seq<Point3>) {
    let started = if state.1.len() == 0 {
        seq![vertex_point(prev)]
    } else {
        state.1
    };
    if shallow(prev, limit) && shallow(curr, limit) {
        (state.0, started.push(vertex_point(curr)))
    } else if shallow(prev, limit) {
        (state.0.push(started.push(crossing_point(curr, floor))), Seq::empty())
    } else if shallow(curr, limit) {
        (state.0, state.1.push(crossing_point(curr, floor)).push(vertex_point(curr)))
    } else {
        state
    }
}

/// The state after the first `k` vertices of a polyline.
pub open spec fn walk(vertices: Seq<SkeletonVertex>, k: nat, limit: Scalar, floor: Scalar) -> (
    Seq<Seq<Point3>>,
    Seq<Point3>,
)
    decreases k,
{
    if k <= 1 {
        (Seq::empty(), Seq::empty())
    } else {
        walk_step(
            walk(vertices, (k - 1) as nat, limit, floor),
            vertices[k - 2],
            vertices[k - 1],
            limit,
            floor,
        )
    }
}

/// The paths of one polyline of the medial axis. A polyline of fewer than
/// two vertices gives none.
pub open spec fn segment_paths(vertices: Seq<SkeletonVertex>, limit: Scalar, floor: Scalar) -> Seq<
    Seq<Point3>,
> {
    if vertices.len() < 2 {
        Seq::empty()
    } else {
        let state = walk(vertices, vertices.len(), limit, floor);
        if state.1.len() > 0 {
            state.0.push(state.1)
        } else {
            state.0
        }
    }
}

/// The paths of the polylines of the medial axis, in their order.
pub open spec fn crease_paths(skeleton: Seq<Seq<SkeletonVertex>>, limit: Scalar, floor: Scalar) -> Seq<
    Seq<Point3>,
>
    decreases skeleton.len(),
{
    if skeleton.len() == 0 {
        Seq::empty()
    } else {
        crease_paths(skeleton.drop_last(), limit, floor) + segment_paths(
            skeleton.last(),
            limit,
            floor,
        )
    }
}

/// A loop traced at the height `z`: closed, and dropped if that leaves
/// fewer than two points.
pub open spec fn traced_loop(points: Seq<Point2>, z: Scalar) -> Seq<Seq<Point3>> {
    let ring = closed_ring(lifted(points, z));
    if ring.len() >= 2 {
        seq![ring]
    } else {
        Seq::empty()
    }
}

/// The loops traced at the height `z`, in their order.
pub open spec fn traced_loops(loops: Seq<Seq<Point2>>, z: Scalar) -> Seq<Seq<Point3>>
    decreases loops.len(),
{
    if loops.len() == 0 {
        Seq::empty()
    } else {
        traced_loops(loops.drop_last(), z) + traced_loop(loops.last(), z)
    }
}

/// The flat-bottom paths of one offset polygon: its outer loop, then its holes.
pub open spec fn polygon_walls(polygon: CarvePolygon, z: Scalar) -> Seq<Seq<Point3>> {
    traced_loop(polygon.outer@, z) + traced_loops(loops_view(polygon.holes@), z)
}

/// The flat-bottom paths of the offset polygons, in their order.
pub open spec fn wall_paths(walls: Seq<CarvePolygon>, z: Scalar) -> Seq<Seq<Point3>>
    decreases walls.len(),
{
    if walls.len() == 0 {
        Seq::empty()
    } else {
        wall_paths(walls.drop_last(), z) + polygon_walls(walls.last(), z)
    }
}

/// The views of the polylines of a skeleton.
pub open spec fn skeleton_view(skeleton: Seq<Vec<SkeletonVertex>>) -> Seq<Seq<SkeletonVertex>> {
    Seq::new(skeleton.len(), |i: int| skeleton[i]@)
}

/// All paths of a V-carve: with a maximal depth the flat-bottom paths
/// first, then the paths along the medial axis.
pub open spec fn carve_paths(max_depth: Option<Scalar>, measured: CarveMeasurements) -> Seq<
    Seq<Point3>,
> {
    let creases = crease_paths(
        skeleton_view(measured.skeleton@),
        limit_in_force(max_depth, measured.limit_distance),
        floor_height(max_depth),
    );
    match max_depth {
        Some(depth) => wall_paths(measured.walls@, depth.negated()) + creases,
        None => creases,
    }
}

/// The toolpath of a V-carve, or why there is none.
pub open spec fn vcarve_paths(
    polygons: Seq<CarvePolygon>,
    tool: Tool,
    max_depth: Option<Scalar>,
    measured: CarveMeasurements,
) -> Result<Seq<Seq<Point3>>, CamError> {
    if vbit_angle_of(tool).is_none() {
        Err(CamError::VCarveRequiresVBit)
    } else if polygons.len() == 0 {
        Err(CamError::VCarveRequiresPolygon)
    } else if carve_paths(max_depth, measured).len() == 0 {
        Err(CamError::NoSkeletonPaths)
    } else {
        Ok(carve_paths(max_depth, measured))
    }
}

/// Appends a loop traced at the height `z`.
fn trace_loop(paths: &mut Vec<Vec<Point3>>, points: &Vec<Point2>, z: Scalar)
    ensures
        paths_view(final(paths)@) == paths_view(old(paths)@) + traced_loop(points@, z),
{
    let mut ring = lift_path(points, z);
    close_ring(&mut ring);
    if ring.len() >= 2 {
        proof {
            lemma_paths_view_push(paths@, ring);
            assert(paths_view(paths@).push(ring@) =~= paths_view(paths@) + seq![ring@]);
        }
        paths.push(ring);
    } else {
        assert(paths_view(paths@) + traced_loop(points@, z) =~= paths_view(paths@));
    }
}

/// Appends the flat-bottom paths of the offset polygons.
fn trace_walls(paths: &mut Vec<Vec<Point3>>, walls: &Vec<CarvePolygon>, z: Scalar)
    ensures
        paths_view(final(paths)@) == paths_view(old(paths)@) + wall_paths(walls@, z),
{
    let ghost start = paths_view(paths@);
    let mut i: usize = 0;
    proof {
        assert(walls@.take(0) =~= Seq::<CarvePolygon>::empty());
        assert(start + wall_paths(walls@.take(0), z) =~= start);
    }
    while i < walls.len()
        invariant
            0 <= i <= walls@.len(),
            paths_view(paths@) == start + wall_paths(walls@.take(i as int), z),
        decreases walls@.len() - i,
    {
        let polygon = &walls[i];
        let ghost before = paths_view(paths@);
        trace_loop(paths, &polygon.outer, z);
        let ghost with_outer = paths_view(paths@);
        let ghost holes = loops_view(polygon.holes@);
        let mut h: usize = 0;
        proof {
            assert(holes.take(0) =~= Seq::<Seq<Point2>>::empty());
            assert(with_outer + traced_loops(holes.take(0), z) =~= with_outer);
        }
        while h < polygon.holes.len()
            invariant
                0 <= h <= polygon.holes@.len(),
                holes == loops_view(polygon.holes@),
                paths_view(paths@) == with_outer + traced_loops(holes.take(h as int), z),
            decreases polygon.holes@.len() - h,
        {
            let ghost prev = paths_view(paths@);
            trace_loop(paths, &polygon.holes[h], z);
            proof {
                let next = holes.take(h + 1);
                assert(next.drop_last() =~= holes.take(h as int));
                assert(next.last() == polygon.holes@[h as int]@);
                assert(with_outer + traced_loops(next, z) =~= prev + traced_loop(
                    polygon.holes@[h as int]@,
                    z,
                ));
            }
            h = h + 1;
        }
        proof {
            assert(holes.take(polygon.holes@.len() as int) =~= holes);
            let next = walls@.take(i + 1);
            assert(next.drop_last() =~= walls@.take(i as int));
            assert(next.last() == walls@[i as int]);
            assert(paths_view(paths@) =~= before + polygon_walls(walls@[i as int], z));
            assert(start + wall_paths(next, z) =~= before + polygon_walls(walls@[i as int], z));
        }
        i = i + 1;
    }
    assert(walls@.take(walls@.len() as int) =~= walls@);
}

/// Appends the paths of one polyline of the medial axis.
fn walk_segment(
    paths: &mut Vec<Vec<Point3>>,
    vertices: &Vec<SkeletonVertex>,
    limit: Scalar,
    floor: Scalar,
)
    ensures
        paths_view(final(paths)@) == paths_view(old(paths)@) + segment_paths(
            vertices@,
            limit,
            floor,
        ),
{
    let n: usize = vertices.len();
    let ghost start = paths_view(paths@);
    if n < 2 {
        assert(start + segment_paths(vertices@, limit, floor) =~= start);
        return ;
    }
    let mut current: Vec<Point3> = Vec::new();
    let mut k: usize = 1;
    proof {
        assert(start + walk(vertices@, 1, limit, floor).0 =~= start);
    }
    while k < n
        invariant
            1 <= k <= n,
            n == vertices@.len(),
            paths_view(paths@) == start + walk(vertices@, k as nat, limit, floor).0,
            current@ == walk(vertices@, k as nat, limit, floor).1,
        decreases n - k,
    {
        let prev = vertices[k - 1];
        let curr = vertices[k];
        let was_shallow = prev.distance.le(limit);
        let is_shallow = curr.distance.le(limit);
        let ghost state = walk(vertices@, k as nat, limit, floor);
        let ghost next = walk(vertices@, (k + 1) as nat, limit, floor);
        assert(next == walk_step(state, prev, curr, limit, floor));
        if was_shallow && is_shallow {
            if current.len() == 0 {
                current.push((prev.x, prev.y, prev.z));
            }
            current.push((curr.x, curr.y, curr.z));
            assert(current@ =~= next.1);
        } else if was_shallow {
            if current.len() == 0 {
                current.push((prev.x, prev.y, prev.z));
            }
            current.push((curr.crossing.0, curr.crossing.1, floor));
            proof {
                lemma_paths_view_push(paths@, current);
                assert(start + state.0.push(current@) =~= (start + state.0).push(current@));
            }
            paths.push(current);
            current = Vec::new();
            assert(current@ =~= next.1);
        } else if is_shallow {
            current.push((curr.crossing.0, curr.crossing.1, floor));
            current.push((curr.x, curr.y, curr.z));
            assert(current@ =~= next.1);
        }
        k = k + 1;
    }
    if current.len() > 0 {
        proof {
            let state = walk(vertices@, n as nat, limit, floor);
            lemma_paths_view_push(paths@, current);
            assert(start + state.0.push(current@) =~= (start + state.0).push(current@));
        }
        paths.push(current);
    }
}

/// The toolpath of a V-carve from what the kernels measured.
///
/// With a maximal depth, each loop of the polygons offset inwards by the
/// limit distance is traced at `-max_depth`: closed, outer loop before
/// holes. Then each polyline of the medial axis is walked and split at the
/// limit distance: where both ends of an edge are within the limit the edge
/// is cut at the depths of its ends; where both are beyond it nothing is
/// cut; where the edge crosses the limit it is cut between the shallow end
/// and the crossing, which lies at `-max_depth`.
///
/// Fails with `VCarveRequiresVBit` if the tool is not a V-bit, with
/// `VCarveRequiresPolygon` if there is no polygon, and with
/// `NoSkeletonPaths` if no path results.
pub fn generate_vcarve_toolpath(
    polygons: &Vec<CarvePolygon>,
    tool: &Tool,
    max_depth: Option<Scalar>,
    measured: &CarveMeasurements,
) -> (r: Result<Toolpath, CamError>)
    ensures
        match r {
            Ok(toolpath) => vcarve_paths(polygons@, *tool, max_depth, *measured) == Ok::<
                Seq<Seq<Point3>>,
                CamError,
            >(toolpath@),
            Err(e) => vcarve_paths(polygons@, *tool, max_depth, *measured) == Err::<
                Seq<Seq<Point3>>,
                CamError,
            >(e),
        },
{
    match tool.tool_type {
        ToolType::VBit { .. } => {},
        _ => {
            return Err(CamError::VCarveRequiresVBit);
        },
    }
    if polygons.len() == 0 {
        return Err(CamError::VCarveRequiresPolygon);
    }
    let unbounded = Scalar::from_bits(UNBOUNDED_BITS);
    let mut paths: Vec<Vec<Point3>> = Vec::new();
    assert(paths_view(paths@) =~= Seq::<Seq<Point3>>::empty());
    let (limit, floor) = match max_depth {
        Some(depth) => {
            trace_walls(&mut paths, &measured.walls, depth.neg());
            (measured.limit_distance, depth.neg())
        },
        None => (unbounded, unbounded.neg()),
    };
    let ghost walls = paths_view(paths@);
    let ghost all = skeleton_view(measured.skeleton@);
    let mut i: usize = 0;
    proof {
        assert(all.take(0) =~= Seq::<Seq<SkeletonVertex>>::empty());
        assert(walls + crease_paths(all.take(0), limit, floor) =~= walls);
    }
    while i < measured.skeleton.len()
        invariant
            0 <= i <= measured.skeleton@.len(),
            all == skeleton_view(measured.skeleton@),
            paths_view(paths@) == walls + crease_paths(all.take(i as int), limit, floor),
        decreases measured.skeleton@.len() - i,
    {
        let ghost before = paths_view(paths@);
        walk_segment(&mut paths, &measured.skeleton[i], limit, floor);
        proof {
            let next = all.take(i + 1);
            assert(next.drop_last() =~= all.take(i as int));
            assert(next.last() == measured.skeleton@[i as int]@);
            assert(walls + crease_paths(next, limit, floor) =~= before + segment_paths(
                measured.skeleton@[i as int]@,
                limit,
                floor,
            ));
        }
        i = i + 1;
    }
    proof {
        assert(all.take(measured.skeleton@.len() as int) =~= all);
        assert(paths_view(paths@) =~= carve_paths(max_depth, *measured));
    }
    if paths.len() == 0 {
        return Err(CamError::NoSkeletonPaths);
    }
    let toolpath = Toolpath { paths };
    assert(toolpath@ =~= paths_view(toolpath.paths@));
    Ok(toolpath)
}

/// Every point of the flat-bottom loops lies at the height at which they are traced.
pub proof fn lemma_traced_loops_height(loops: Seq<Seq<Point2>>, z: Scalar)
    ensures
        all_at_height(traced_loops(loops, z), z),
    decreases loops.len(),
{
    if loops.len() > 0 {
        lemma_traced_loops_height(loops.drop_last(), z);
        lemma_closed_ring_height(loops.last(), z);
    }
}

/// Every point of the flat-bottom paths lies on the flat bottom.
pub proof fn lemma_wall_height(walls: Seq<CarvePolygon>, z: Scalar)
    ensures
        all_at_height(wall_paths(walls, z), z),
    decreases walls.len(),
{
    if walls.len() > 0 {
        lemma_wall_height(walls.drop_last(), z);
        lemma_closed_ring_height(walls.last().outer@, z);
        lemma_traced_loops_height(loops_view(walls.last().holes@), z);
    }
}

/// The point is the tool position at a vertex of the polyline, or lies on
/// the flat bottom.
pub open spec fn on_axis_or_floor(p: Point3, vertices: Seq<SkeletonVertex>, floor: Scalar) -> bool {
    p.2 == floor || exists|k: int| 0 <= k < vertices.len() && p == vertex_point(#[trigger] vertices[k])
}

/// Every point that the walk of a polyline has made is the tool position at
/// one of its vertices, or lies on the flat bottom.
pub proof fn lemma_walk_points(vertices: Seq<SkeletonVertex>, k: nat, limit: Scalar, floor: Scalar)
    requires
        k <= vertices.len(),
    ensures
        forall|i: int, j: int|
            0 <= i < walk(vertices, k, limit, floor).0.len() && 0 <= j < walk(
                vertices,
                k,
                limit,
                floor,
            ).0[i].len() ==> on_axis_or_floor(
                #[trigger] walk(vertices, k, limit, floor).0[i][j],
                vertices,
                floor,
            ),
        forall|j: int|
            0 <= j < walk(vertices, k, limit, floor).1.len() ==> on_axis_or_floor(
                #[trigger] walk(vertices, k, limit, floor).1[j],
                vertices,
                floor,
            ),
    decreases k,
{
    if k > 1 {
        lemma_walk_points(vertices, (k - 1) as nat, limit, floor);
        let before = walk(vertices, (k - 1) as nat, limit, floor);
        let after = walk(vertices, k, limit, floor);
        let prev = vertices[k - 2];
        let curr = vertices[k - 1];
        assert(after == walk_step(before, prev, curr, limit, floor));
        assert(on_axis_or_floor(vertex_point(prev), vertices, floor));
        assert(on_axis_or_floor(vertex_point(curr), vertices, floor));
        assert(on_axis_or_floor(crossing_point(curr, floor), vertices, floor));
    }
}

/// Every point of the paths of a polyline is the tool position at one of
/// its vertices, or lies on the flat bottom.
pub proof fn lemma_segment_points(vertices: Seq<SkeletonVertex>, limit: Scalar, floor: Scalar)
    ensures
        forall|i: int, j: int|
            0 <= i < segment_paths(vertices, limit, floor).len() && 0 <= j < segment_paths(
                vertices,
                limit,
                floor,
            )[i].len() ==> on_axis_or_floor(
                #[trigger] segment_paths(vertices, limit, floor)[i][j],
                vertices,
                floor,
            ),
{
    if vertices.len() >= 2 {
        lemma_walk_points(vertices, vertices.len(), limit, floor);
    }
}

} // verus!
