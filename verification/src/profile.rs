//! Profile cuts: following an outline at the tool's radius.
//!
//! The outline is offset by the host's polygon kernel, with round joins and
//! closed ends. This module says by how much, and makes the toolpath of what
//! the kernel returns.
use vstd::prelude::*;
use crate::error::CamError;
use crate::paths::{all_at_height, lift_path, lifted, points_equal2, same_point2};
use crate::scalar::Scalar;
use crate::types::{CutSide, Point2, Point3, Toolpath};

verus! {

/// The signed distance of the cut from the outline: the radius outside, its
/// negative inside, zero on the line.
pub open spec fn offset_delta(cut_side: CutSide, radius: Scalar) -> Scalar {
    match cut_side {
        CutSide::Outside => radius,
        CutSide::Inside => radius.negated(),
        CutSide::OnLine => Scalar { bits: 0 },
    }
}

/// The signed distance by which the kernel offsets the outline.
pub fn profile_offset_delta(cut_side: &CutSide, radius: Scalar) -> (r: Scalar)
    ensures
        r == offset_delta(*cut_side, radius),
{
    match cut_side {
        CutSide::Outside => radius,
        CutSide::Inside => radius.neg(),
        CutSide::OnLine => Scalar::zero(),
    }
}

/// The vertices at three rising indices differ from each other.
pub open spec fn distinct_triple(polygon: Seq<Point2>, i: int, j: int, k: int) -> bool {
    &&& 0 <= i < j < k < polygon.len()
    &&& !same_point2(polygon[i], polygon[j])
    &&& !same_point2(polygon[i], polygon[k])
    &&& !same_point2(polygon[j], polygon[k])
}

/// Three vertices of the polygon differ from each other.
pub open spec fn three_distinct(polygon: Seq<Point2>) -> bool {
    exists|i: int, j: int, k: int| distinct_triple(polygon, i, j, k)
}

/// The first index from `from` on whose vertex differs from the vertices at
/// `a` and `b`; the length if there is none.
fn next_distinct(polygon: &Vec<Point2>, from: usize, a: usize, b: usize) -> (r: usize)
    requires
        a < polygon@.len(),
        b < polygon@.len(),
    ensures
        from <= r || r == polygon@.len(),
        r <= polygon@.len(),
        r < polygon@.len() ==> !same_point2(polygon@[r as int], polygon@[a as int]) && !same_point2(
            polygon@[r as int],
            polygon@[b as int],
        ),
        forall|m: int|
            from <= m < r ==> same_point2(polygon@[m], polygon@[a as int]) || same_point2(
                polygon@[m],
                polygon@[b as int],
            ),
{
    let n: usize = polygon.len();
    let mut m: usize = from;
    while m < n
        invariant
            n == polygon@.len(),
            a < n,
            b < n,
            from <= m,
            forall|q: int|
                from <= q < m ==> same_point2(polygon@[q], polygon@[a as int]) || same_point2(
                    polygon@[q],
                    polygon@[b as int],
                ),
        decreases n - m,
    {
        if !points_equal2(&polygon[m], &polygon[a]) && !points_equal2(&polygon[m], &polygon[b]) {
            return m;
        }
        m = m + 1;
    }
    n
}

/// Whether three vertices of the polygon differ from each other.
pub fn has_three_distinct(polygon: &Vec<Point2>) -> (r: bool)
    ensures
        r == three_distinct(polygon@),
{
    let n: usize = polygon.len();
    if n < 3 {
        return false;
    }
    let second: usize = next_distinct(polygon, 1, 0, 0);
    if second >= n {
        proof {
            let p = polygon@;
            assert forall|i: int, j: int, k: int| !distinct_triple(p, i, j, k) by {
                if 0 <= i < j < k < n {
                    assert(same_point2(p[j], p[0]));
                    assert(same_point2(p[k], p[0]));
                }
            }
        }
        return false;
    }
    let third: usize = next_distinct(polygon, second + 1, 0, second);
    if third >= n {
        proof {
            let p = polygon@;
            assert forall|m: int| 0 <= m < n implies m == 0 || m == second || same_point2(
                #[trigger] p[m],
                p[0],
            ) || same_point2(p[m], p[second as int]) by {}
            assert forall|i: int, j: int, k: int| !distinct_triple(p, i, j, k) by {
                if 0 <= i < j < k < n {
                    assert(i == 0 || i == second || same_point2(p[i], p[0]) || same_point2(
                        p[i],
                        p[second as int],
                    ));
                    assert(j == 0 || j == second || same_point2(p[j], p[0]) || same_point2(
                        p[j],
                        p[second as int],
                    ));
                    assert(k == 0 || k == second || same_point2(p[k], p[0]) || same_point2(
                        p[k],
                        p[second as int],
                    ));
                }
            }
        }
        return false;
    }
    assert(distinct_triple(polygon@, 0, second as int, third as int));
    true
}

/// The toolpath of a profile cut, or why there is none.
pub open spec fn profile_paths(
    input_poly: Seq<Point2>,
    offset_paths: Seq<Seq<Point2>>,
    target_depth: Scalar,
) -> Result<Seq<Seq<Point3>>, CamError> {
    if !three_distinct(input_poly) || offset_paths.len() == 0 || offset_paths[0].len() == 0 {
        Err(CamError::PolygonCollapsed)
    } else {
        Ok(seq![lifted(offset_paths[0], target_depth.negated())])
    }
}

/// The toolpath of a profile cut along `input_poly`, from the paths that the
/// kernel made by offsetting it by `profile_offset_delta`: the first of
/// these paths, its vertices in their order, at the depth `-target_depth`.
/// Fails with `PolygonCollapsed` if the outline has fewer than three distinct
/// vertices, or the offset left no path or a first path without a vertex.
pub fn generate_profile_toolpath(
    input_poly: &Vec<Point2>,
    offset_paths: &Vec<Vec<Point2>>,
    target_depth: Scalar,
) -> (r: Result<Toolpath, CamError>)
    ensures
        match r {
            Ok(toolpath) => profile_paths(
                input_poly@,
                crate::paths::loops_view(offset_paths@),
                target_depth,
            ) == Ok::<Seq<Seq<Point3>>, CamError>(toolpath@),
            Err(e) => profile_paths(
                input_poly@,
                crate::paths::loops_view(offset_paths@),
                target_depth,
            ) == Err::<Seq<Seq<Point3>>, CamError>(e),
        },
{
    if !has_three_distinct(input_poly) || offset_paths.len() == 0 || offset_paths[0].len() == 0 {
        return Err(CamError::PolygonCollapsed);
    }
    let path = lift_path(&offset_paths[0], target_depth.neg());
    let mut paths: Vec<Vec<Point3>> = Vec::new();
    paths.push(path);
    let toolpath = Toolpath { paths };
    assert(toolpath@ =~= seq![lifted(offset_paths@[0]@, target_depth.negated())]);
    Ok(toolpath)
}

/// Every point of a profile cut lies at the depth `-target_depth`.
pub proof fn lemma_profile_depth(
    input_poly: Seq<Point2>,
    offset_paths: Seq<Seq<Point2>>,
    target_depth: Scalar,
)
    requires
        profile_paths(input_poly, offset_paths, target_depth).is_ok(),
    ensures
        all_at_height(
            profile_paths(input_poly, offset_paths, target_depth)->Ok_0,
            target_depth.negated(),
        ),
{
}

} // verus!
