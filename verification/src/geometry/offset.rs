//! Putting the loops of an offset together as polygons with holes.
//!
//! The polyline kernel offsets each loop of a polygon on its own. Of what it
//! returns, the loops of positive area are outer boundaries and the others
//! are holes, and each hole belongs to the first outer boundary that it lies
//! inside.
use vstd::prelude::*;
use crate::lists::copy_list;
use crate::paths::{lemma_loops_view_push, loops_view};
use crate::scalar::Scalar;
use crate::types::Point2;
use crate::vcarve::CarvePolygon;

verus! {

/// A loop that the kernel returned, with the signed area that it measured:
/// positive for a loop that runs counter-clockwise.
#[derive(Clone, Debug)]
pub struct OffsetLoop {
    pub points: Vec<Point2>,
    pub area: Scalar,
}

impl OffsetLoop {
    /// A loop of fewer than three points is dropped.
    pub open spec fn usable(self) -> bool {
        self.points@.len() >= 3
    }

    /// An outer boundary: a usable loop of positive area.
    pub open spec fn outer(self) -> bool {
        self.usable() && self.area.positive()
    }

    /// A hole: a usable loop whose area is not positive.
    pub open spec fn hole(self) -> bool {
        self.usable() && !self.area.positive()
    }
}

/// Whether the table says that the first vertex of loop `h` lies inside
/// loop `o`. An entry that the table lacks counts as outside.
pub open spec fn lies_inside(inside: Seq<Vec<bool>>, h: int, o: int) -> bool {
    0 <= h < inside.len() && 0 <= o < inside[h]@.len() && inside[h]@[o]
}

/// Among the first `k` loops, an outer boundary has loop `h` inside it.
pub open spec fn claimed_before(loops: Seq<OffsetLoop>, inside: Seq<Vec<bool>>, h: int, k: int) -> bool {
    exists|o: int| 0 <= o < k && o < loops.len() && (#[trigger] loops[o]).outer() && lies_inside(inside, h, o)
}

/// Loop `h` is a hole of the outer boundary `o`: it lies inside `o` and
/// inside no outer boundary before `o`.
pub open spec fn hole_of(loops: Seq<OffsetLoop>, inside: Seq<Vec<bool>>, h: int, o: int) -> bool {
    &&& loops[h].hole()
    &&& lies_inside(inside, h, o)
    &&& !claimed_before(loops, inside, h, o)
}

/// The holes of the outer boundary `o` among the first `k` loops, in their order.
pub open spec fn holes_of(loops: Seq<OffsetLoop>, inside: Seq<Vec<bool>>, o: int, k: int) -> Seq<
    Seq<Point2>,
>
    decreases k,
{
    if k <= 0 {
        Seq::empty()
    } else if hole_of(loops, inside, k - 1, o) {
        holes_of(loops, inside, o, k - 1).push(loops[k - 1].points@)
    } else {
        holes_of(loops, inside, o, k - 1)
    }
}

/// The polygons of the outer boundaries among the first `k` loops, in
/// their order: each outer boundary with its holes.
pub open spec fn polygons_of(loops: Seq<OffsetLoop>, inside: Seq<Vec<bool>>, k: int) -> Seq<
    (Seq<Point2>, Seq<Seq<Point2>>),
>
    decreases k,
{
    if k <= 0 {
        Seq::empty()
    } else if loops[k - 1].outer() {
        polygons_of(loops, inside, k - 1).push(
            (loops[k - 1].points@, holes_of(loops, inside, k - 1, loops.len() as int)),
        )
    } else {
        polygons_of(loops, inside, k - 1)
    }
}

/// The outline and the holes of each polygon of a list.
pub open spec fn polygon_views(polygons: Seq<CarvePolygon>) -> Seq<(Seq<Point2>, Seq<Seq<Point2>>)> {
    Seq::new(polygons.len(), |i: int| (polygons[i].outer@, loops_view(polygons[i].holes@)))
}

/// Whether the table says that the first vertex of loop `h` lies inside loop `o`.
fn table_entry(inside: &Vec<Vec<bool>>, h: usize, o: usize) -> (r: bool)
    ensures
        r == lies_inside(inside@, h as int, o as int),
{
    h < inside.len() && o < inside[h].len() && inside[h][o]
}

/// Whether an outer boundary among the first `k` loops has loop `h` inside it.
fn is_claimed(loops: &Vec<OffsetLoop>, inside: &Vec<Vec<bool>>, h: usize, k: usize) -> (r: bool)
    requires
        k <= loops@.len(),
    ensures
        r == claimed_before(loops@, inside@, h as int, k as int),
{
    let mut o: usize = 0;
    while o < k
        invariant
            0 <= o <= k <= loops@.len(),
            !claimed_before(loops@, inside@, h as int, o as int),
        decreases k - o,
    {
        if loops[o].points.len() >= 3 && loops[o].area.is_positive() && table_entry(inside, h, o) {
            assert(loops@[o as int].outer() && lies_inside(inside@, h as int, o as int));
            return true;
        }
        proof {
            assert forall|p: int|
                0 <= p < o + 1 && p < loops@.len() && (#[trigger] loops@[p]).outer() implies !lies_inside(
                inside@,
                h as int,
                p,
            ) by {
                if p < o {
                    assert(!claimed_before(loops@, inside@, h as int, o as int));
                }
            }
        }
        o = o + 1;
    }
    false
}

/// The polygons of an offset: of the loops that the kernel returned for
/// one polygon, those of at least three points and positive area become
/// outer boundaries, in their order, and each other loop of at least three
/// points becomes a hole of the first outer boundary inside which its first
/// vertex lies. `inside[h][o]` says whether the first vertex of loop `h`
/// lies inside loop `o`. A hole inside no outer boundary is dropped.
pub fn assemble_polygons(loops: &Vec<OffsetLoop>, inside: &Vec<Vec<bool>>) -> (r: Vec<CarvePolygon>)
    ensures
        polygon_views(r@) == polygons_of(loops@, inside@, loops@.len() as int),
{
    let n: usize = loops.len();
    let mut polygons: Vec<CarvePolygon> = Vec::new();
    let mut o: usize = 0;
    assert(polygon_views(polygons@) =~= polygons_of(loops@, inside@, 0));
    while o < n
        invariant
            0 <= o <= n,
            n == loops@.len(),
            polygon_views(polygons@) == polygons_of(loops@, inside@, o as int),
        decreases n - o,
    {
        if loops[o].points.len() >= 3 && loops[o].area.is_positive() {
            let mut holes: Vec<Vec<Point2>> = Vec::new();
            let mut h: usize = 0;
            assert(loops_view(holes@) =~= holes_of(loops@, inside@, o as int, 0));
            while h < n
                invariant
                    0 <= h <= n,
                    o < n,
                    n == loops@.len(),
                    loops_view(holes@) == holes_of(loops@, inside@, o as int, h as int),
                decreases n - h,
            {
                if loops[h].points.len() >= 3 && !loops[h].area.is_positive() && table_entry(
                    inside,
                    h,
                    o,
                ) && !is_claimed(loops, inside, h, o) {
                    let copy = copy_list(&loops[h].points);
                    proof {
                        lemma_loops_view_push(holes@, copy);
                    }
                    holes.push(copy);
                }
                h = h + 1;
            }
            let polygon = CarvePolygon { outer: copy_list(&loops[o].points), holes };
            let ghost before = polygons@;
            polygons.push(polygon);
            assert(polygon_views(polygons@) =~= polygon_views(before).push(
                (polygon.outer@, loops_view(polygon.holes@)),
            ));
        }
        o = o + 1;
    }
    polygons
}

/// No loop is a hole of two outer boundaries.
pub proof fn lemma_hole_has_one_owner(
    loops: Seq<OffsetLoop>,
    inside: Seq<Vec<bool>>,
    h: int,
    a: int,
    b: int,
)
    requires
        0 <= a < b < loops.len(),
        loops[a].outer(),
        loops[b].outer(),
        hole_of(loops, inside, h, a),
    ensures
        !hole_of(loops, inside, h, b),
{
    assert(loops[a].outer() && lies_inside(inside, h, a));
}

} // verus!
