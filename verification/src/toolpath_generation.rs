//! Generating the toolpaths of a project's operations.
//!
//! Generation alternates between decisions and numeric work. The decisions
//! are made here: which curves an operation reads, how their polylines
//! become polygons, which generator gets them, and what is stored and
//! reported. The numeric work is the host's: it flattens the curves that
//! `plan_operation` asks for, runs the polygon kernels for the job that
//! `prepare_operation` returns, and hands the generated toolpaths to
//! `generate_toolpaths_for_operations`.
use std::collections::HashMap;
use vstd::prelude::*;
use crate::error::CamError;
use crate::geometry::curve::{Affine, Curve};
use crate::geometry::ids::{CurveId, RegionId};
use crate::geometry::region::Region;
use crate::geometry::registry::ShapeRegistry;
use crate::lists::copy_list;
use crate::paths::{close_loop, closed_loop, lemma_loops_view_push, loops_view, same_point2};
use crate::project::{
    current_epoch_ms, duplicate_texts, Project, SvgImport, ToolpathArtifact, ToolpathPass,
    ToolpathPassKind, ToolpathStatus,
};
use crate::scalar::{Scalar, ONE_BITS};
use crate::tool_library::ToolLibrary;
use crate::types::{CutSide, Operation, OperationTarget, Point2, Tool, Toolpath};
use crate::vcarve::{vbit_angle, vbit_angle_of, CarvePolygon};

verus! {

broadcast use vstd::std_specs::hash::group_hash_axioms;

/// The bit pattern of `0.25`, the tolerance in millimetres within which
/// the curves of an operation are flattened.
pub const FLATTEN_TOLERANCE_BITS: u64 = 0x3fd0_0000_0000_0000;

/// What generating the toolpaths of one operation came to.
#[derive(Clone, Debug)]
pub struct ToolpathGenerationReport {
    pub operation_index: usize,
    pub status: ToolpathStatus,
    pub warnings: Vec<String>,
    pub error: Option<String>,
}

/// A curve that the host is to flatten, within the flattening tolerance and
/// after applying the affine map of the import that owns the curve.
#[derive(Clone, Copy, Debug)]
pub struct FlattenRequest {
    pub curve_id: CurveId,
    pub transform: Option<Affine>,
}

/// The clearance pass of a V-carve.
#[derive(Clone, Copy, Debug)]
pub struct ClearanceJob {
    pub tool_index: usize,
    /// The depth of the flat bottom that the pass clears.
    pub depth: Scalar,
}

/// What the kernels and generators are to work on for one operation.
#[derive(Clone, Debug)]
pub enum GeneratorJob {
    /// Offset `polygon` by the tool's radius on `cut_side`.
    Profile { tool_index: usize, cut_side: CutSide, target_depth: Scalar, polygon: Vec<Point2> },
    /// Clear `outer` without `holes`.
    Pocket { tool_index: usize, target_depth: Scalar, outer: Vec<Point2>, holes: Vec<Vec<Point2>> },
    /// Carve `polygons`. With a clearance job, clear the polygons offset
    /// inwards by the limit distance of its depth first.
    VCarve {
        tool_index: usize,
        angle_degrees: Scalar,
        max_depth: Option<Scalar>,
        polygons: Vec<CarvePolygon>,
        clearance: Option<ClearanceJob>,
        warnings: Vec<String>,
    },
}

/// The warning for a clearance pass without a maximal depth.
pub open spec fn clearance_warning() -> Seq<char> {
    "Clearance tool selected without a max depth; defaulting to 1mm."@
}

/// The affine map under which a curve is flattened: that of the last import
/// that lists the curve, if any does.
pub open spec fn transform_of(imports: Seq<SvgImport>, id: CurveId) -> Option<Affine>
    decreases imports.len(),
{
    if imports.len() == 0 {
        None
    } else if imports.last().curve_ids@.contains(id) {
        Some(imports.last().transform)
    } else {
        transform_of(imports.drop_last(), id)
    }
}

/// The curves of a region: its outer boundary, then its holes.
pub open spec fn region_curves(region: Region) -> Seq<CurveId> {
    seq![region.outer] + region.holes@
}

/// The curves that an operation reads, in the order in which it reads
/// them: every curve of a list of curves, or the outer boundary of a region
/// and then its holes.
pub open spec fn curves_read(operation: Operation, regions: Map<u128, Region>) -> Result<
    Seq<CurveId>,
    CamError,
> {
    match operation.target_of() {
        OperationTarget::Region(id) => if regions.contains_key(id.value) {
            Ok(region_curves(regions[id.value]))
        } else {
            Err(CamError::RegionNotFound(id))
        },
        OperationTarget::Curves(ids) => Ok(ids@),
    }
}

/// The number of leading curves that the registry holds.
pub open spec fn found_prefix(ids: Seq<CurveId>, curves: Map<u128, Curve>) -> int
    decreases ids.len(),
{
    if ids.len() == 0 {
        0
    } else if curves.contains_key(ids[0].value) {
        1 + found_prefix(ids.drop_first(), curves)
    } else {
        0
    }
}

/// The requests for the curves of an operation: one for each curve that it
/// reads, in order, up to the first curve that the registry does not hold.
pub open spec fn requests_for(
    ids: Seq<CurveId>,
    curves: Map<u128, Curve>,
    imports: Seq<SvgImport>,
) -> Seq<FlattenRequest> {
    Seq::new(
        found_prefix(ids, curves) as nat,
        |i: int| FlattenRequest { curve_id: ids[i], transform: transform_of(imports, ids[i]) },
    )
}

/// The closed loops of the curves, from the polylines that the host made of
/// them: `flattened[k]` is the polyline of the curve `ids[k]`. The curves
/// are read in order, and the first failure is the result: a curve that the
/// registry does not hold, or one whose polyline is missing or empty.
pub open spec fn resolved_loops(
    ids: Seq<CurveId>,
    curves: Map<u128, Curve>,
    flattened: Seq<Seq<Point2>>,
) -> Result<Seq<Seq<Point2>>, CamError>
    decreases ids.len(),
{
    if ids.len() == 0 {
        Ok(Seq::empty())
    } else {
        match resolved_loops(ids.drop_last(), curves, flattened) {
            Err(e) => Err(e),
            Ok(loops) => {
                let k = ids.len() - 1;
                if !curves.contains_key(ids[k].value) {
                    Err(CamError::CurveNotFound(ids[k]))
                } else if k >= flattened.len() || flattened[k].len() == 0 {
                    Err(CamError::CurveEmpty(ids[k]))
                } else {
                    Ok(loops.push(closed_loop(flattened[k])))
                }
            },
        }
    }
}

/// The loops of at least three vertices, in their order.
pub open spec fn usable_loops(loops: Seq<Seq<Point2>>) -> Seq<Seq<Point2>>
    decreases loops.len(),
{
    if loops.len() == 0 {
        Seq::empty()
    } else if loops.last().len() >= 3 {
        usable_loops(loops.drop_last()).push(loops.last())
    } else {
        usable_loops(loops.drop_last())
    }
}

/// The failure of an operation that has no polygon to work on.
pub open spec fn no_geometry(operation: Operation) -> CamError {
    match operation {
        Operation::Profile { .. } => CamError::ProfileRequiresGeometry,
        Operation::Pocket { .. } => CamError::PocketRequiresClosedCurve,
        Operation::VCarve { .. } => CamError::VCarveRequiresPolygon,
    }
}

/// The polygons that an operation works on, from its closed loops. Loops
/// of fewer than three vertices are discarded.
///
/// - Along curves, a profile follows the first loop that is left, a pocket
///   takes the last loop that is left as its outer boundary and the others
///   as islands, and a V-carve carves every loop that is left. A pocket
///   without a loop fails.
/// - Of a region, the first polygon is the outer loop, and the holes that
///   are left follow it; a profile follows the outer loop alone. A region
///   whose outer loop has fewer than three vertices fails.
pub open spec fn arranged_polygons(operation: Operation, loops: Seq<Seq<Point2>>) -> Result<
    Seq<Seq<Point2>>,
    CamError,
> {
    match operation.target_of() {
        OperationTarget::Curves(_) => {
            let usable = usable_loops(loops);
            match operation {
                Operation::Profile { .. } => if usable.len() == 0 {
                    Ok(Seq::empty())
                } else {
                    Ok(seq![usable[0]])
                },
                Operation::Pocket { .. } => if usable.len() == 0 {
                    Err(CamError::PocketRequiresClosedCurve)
                } else {
                    Ok(seq![usable.last()] + usable.drop_last())
                },
                Operation::VCarve { .. } => Ok(usable),
            }
        },
        OperationTarget::Region(_) => if loops.len() == 0 || loops[0].len() < 3 {
            Err(no_geometry(operation))
        } else {
            match operation {
                Operation::Profile { .. } => Ok(seq![loops[0]]),
                _ => Ok(seq![loops[0]] + usable_loops(loops.drop_first())),
            }
        },
    }
}

/// The polygons of an operation of a project, from the polylines of the
/// curves that it reads.
pub open spec fn operation_polygons(
    operation: Operation,
    registry: ShapeRegistry,
    flattened: Seq<Seq<Point2>>,
) -> Result<Seq<Seq<Point2>>, CamError> {
    match curves_read(operation, registry.regions@) {
        Err(e) => Err(e),
        Ok(ids) => match resolved_loops(ids, registry.curves@, flattened) {
            Err(e) => Err(e),
            Ok(loops) => arranged_polygons(operation, loops),
        },
    }
}

/// Whether a list of identifiers holds `id`.
fn lists_curve(ids: &Vec<CurveId>, id: CurveId) -> (r: bool)
    ensures
        r == ids@.contains(id),
{
    let mut i: usize = 0;
    while i < ids.len()
        invariant
            0 <= i <= ids@.len(),
            forall|j: int| 0 <= j < i ==> ids@[j] != id,
        decreases ids@.len() - i,
    {
        if ids[i] == id {
            return true;
        }
        i = i + 1;
    }
    false
}

/// The affine map under which a curve is flattened.
pub fn lookup_transform(imports: &Vec<SvgImport>, id: CurveId) -> (r: Option<Affine>)
    ensures
        r == transform_of(imports@, id),
{
    let mut k: usize = imports.len();
    assert(imports@.take(k as int) =~= imports@);
    while k > 0
        invariant
            0 <= k <= imports@.len(),
            transform_of(imports@, id) == transform_of(imports@.take(k as int), id),
        decreases k,
    {
        let ghost prefix = imports@.take(k as int);
        assert(prefix.last() == imports@[k - 1]);
        assert(prefix.drop_last() =~= imports@.take(k - 1));
        if lists_curve(&imports[k - 1].curve_ids, id) {
            return Some(imports[k - 1].transform);
        }
        k = k - 1;
    }
    None
}

/// The curves that an operation reads, in the order in which it reads them.
/// Fails with `RegionNotFound` if it names a region that the registry does
/// not hold.
pub fn curves_of_operation(operation: &Operation, registry: &ShapeRegistry) -> (r: Result<
    Vec<CurveId>,
    CamError,
>)
    ensures
        match r {
            Ok(ids) => curves_read(*operation, registry.regions@) == Ok::<Seq<CurveId>, CamError>(
                ids@,
            ),
            Err(e) => curves_read(*operation, registry.regions@) == Err::<Seq<CurveId>, CamError>(
                e,
            ),
        },
{
    match operation.target() {
        OperationTarget::Region(id) => {
            match registry.get_region(id) {
                Some(region) => {
                    let mut ids: Vec<CurveId> = Vec::new();
                    ids.push(region.outer);
                    let mut i: usize = 0;
                    while i < region.holes.len()
                        invariant
                            0 <= i <= region.holes@.len(),
                            ids@ == seq![region.outer] + region.holes@.take(i as int),
                        decreases region.holes@.len() - i,
                    {
                        ids.push(region.holes[i]);
                        assert(ids@ =~= seq![region.outer] + region.holes@.take(i + 1));
                        i = i + 1;
                    }
                    assert(region.holes@.take(region.holes@.len() as int) =~= region.holes@);
                    Ok(ids)
                },
                None => Err(CamError::RegionNotFound(*id)),
            }
        },
        OperationTarget::Curves(all) => Ok(copy_list(all)),
    }
}

/// What stands in the way of asking for the curves of the operation at
/// `index`: the index names no operation, or the operation names no region
/// of the registry.
pub open spec fn requests_of(project: Project, index: usize) -> Result<
    Seq<FlattenRequest>,
    CamError,
> {
    if index >= project.operations@.len() {
        Err(CamError::InvalidOperationIndex(index))
    } else {
        match curves_read(project.operations@[index as int], project.shapes.regions@) {
            Err(e) => Err(e),
            Ok(ids) => Ok(requests_for(ids, project.shapes.curves@, project.imported_svgs@)),
        }
    }
}

/// The curves that the host is to flatten for the operation at `index`, in
/// the order in which the operation reads them: each curve up to the first
/// that the registry does not hold, with the affine map of the import that
/// owns it. The polylines go to `polygons_for_operation` or
/// `prepare_operation` in the same order.
pub fn flatten_requests(project: &Project, index: usize) -> (r: Result<
    Vec<FlattenRequest>,
    CamError,
>)
    ensures
        match r {
            Ok(requests) => requests_of(*project, index) == Ok::<Seq<FlattenRequest>, CamError>(
                requests@,
            ),
            Err(e) => requests_of(*project, index) == Err::<Seq<FlattenRequest>, CamError>(e),
        },
{
    if index >= project.operations.len() {
        return Err(CamError::InvalidOperationIndex(index));
    }
    let ids = match curves_of_operation(&project.operations[index], &project.shapes) {
        Ok(ids) => ids,
        Err(e) => {
            return Err(e);
        },
    };
    let ghost curves = project.shapes.curves@;
    let ghost imports = project.imported_svgs@;
    let mut requests: Vec<FlattenRequest> = Vec::new();
    let mut i: usize = 0;
    proof {
        assert(ids@.skip(0) =~= ids@);
    }
    while i < ids.len()
        invariant_except_break
            0 <= i <= ids@.len(),
            curves == project.shapes.curves@,
            imports == project.imported_svgs@,
            requests@.len() == i,
            found_prefix(ids@, curves) == i + found_prefix(ids@.skip(i as int), curves),
            forall|j: int|
                0 <= j < i ==> requests@[j] == (FlattenRequest {
                    curve_id: ids@[j],
                    transform: transform_of(imports, ids@[j]),
                }),
        ensures
            requests@.len() == found_prefix(ids@, curves),
            forall|j: int|
                0 <= j < requests@.len() ==> requests@[j] == (FlattenRequest {
                    curve_id: ids@[j],
                    transform: transform_of(imports, ids@[j]),
                }),
        decreases ids@.len() - i,
    {
        let ghost rest = ids@.skip(i as int);
        proof {
            assert(rest[0] == ids@[i as int]);
            assert(rest.drop_first() =~= ids@.skip(i + 1));
        }
        let id = ids[i];
        if project.shapes.get_curve(&id).is_none() {
            break ;
        }
        requests.push(
            FlattenRequest { curve_id: id, transform: lookup_transform(&project.imported_svgs, id) },
        );
        i = i + 1;
    }
    assert(requests@ =~= requests_for(ids@, curves, imports));
    Ok(requests)
}

/// The requests of `requests_of`, unless the operation names a tool that
/// the library does not hold.
pub open spec fn planned_requests(project: Project, tools: Seq<Tool>, index: usize) -> Result<
    Seq<FlattenRequest>,
    CamError,
> {
    if index >= project.operations@.len() {
        Err(CamError::InvalidOperationIndex(index))
    } else if project.operations@[index as int].tool_of() >= tools.len() {
        Err(CamError::ToolNotFound(project.operations@[index as int].tool_of()))
    } else {
        requests_of(project, index)
    }
}

/// The first step of generating the toolpaths of the operation at `index`:
/// the curves that the host is to flatten, as `flatten_requests` gives
/// them. Fails with `ToolNotFound` before anything else if the operation
/// names a tool that the library does not hold.
pub fn plan_operation(project: &Project, tools: &ToolLibrary, index: usize) -> (r: Result<
    Vec<FlattenRequest>,
    CamError,
>)
    ensures
        match r {
            Ok(requests) => planned_requests(*project, tools.tools@, index) == Ok::<
                Seq<FlattenRequest>,
                CamError,
            >(requests@),
            Err(e) => planned_requests(*project, tools.tools@, index) == Err::<
                Seq<FlattenRequest>,
                CamError,
            >(e),
        },
{
    if index >= project.operations.len() {
        return Err(CamError::InvalidOperationIndex(index));
    }
    let tool_index = project.operations[index].tool_index();
    if tool_index >= tools.tools.len() {
        return Err(CamError::ToolNotFound(tool_index));
    }
    flatten_requests(project, index)
}

/// The closed loops of the curves `ids`, from their polylines.
pub fn resolve_loops(ids: &Vec<CurveId>, registry: &ShapeRegistry, flattened: &Vec<Vec<Point2>>) -> (r:
    Result<Vec<Vec<Point2>>, CamError>)
    ensures
        match r {
            Ok(loops) => resolved_loops(ids@, registry.curves@, loops_view(flattened@)) == Ok::<
                Seq<Seq<Point2>>,
                CamError,
            >(loops_view(loops@)),
            Err(e) => resolved_loops(ids@, registry.curves@, loops_view(flattened@)) == Err::<
                Seq<Seq<Point2>>,
                CamError,
            >(e),
        },
{
    let ghost curves = registry.curves@;
    let ghost lines = loops_view(flattened@);
    let mut loops: Vec<Vec<Point2>> = Vec::new();
    let mut k: usize = 0;
    proof {
        assert(ids@.take(0) =~= Seq::<CurveId>::empty());
        assert(loops_view(loops@) =~= Seq::<Seq<Point2>>::empty());
    }
    while k < ids.len()
        invariant
            0 <= k <= ids@.len(),
            curves == registry.curves@,
            lines == loops_view(flattened@),
            resolved_loops(ids@.take(k as int), curves, lines) == Ok::<Seq<Seq<Point2>>, CamError>(
                loops_view(loops@),
            ),
        decreases ids@.len() - k,
    {
        let ghost next = ids@.take(k + 1);
        proof {
            assert(next.drop_last() =~= ids@.take(k as int));
            assert(next[k as int] == ids@[k as int]);
        }
        let id = ids[k];
        if registry.get_curve(&id).is_none() {
            proof {
                lemma_first_failure(ids@, (k + 1) as int, curves, lines);
            }
            return Err(CamError::CurveNotFound(id));
        }
        if k >= flattened.len() || flattened[k].len() == 0 {
            proof {
                lemma_first_failure(ids@, (k + 1) as int, curves, lines);
            }
            return Err(CamError::CurveEmpty(id));
        }
        let mut points = copy_list(&flattened[k]);
        close_loop(&mut points);
        proof {
            lemma_loops_view_push(loops@, points);
        }
        loops.push(points);
        k = k + 1;
    }
    assert(ids@.take(ids@.len() as int) =~= ids@);
    Ok(loops)
}

/// A failure among the first `k` curves is the failure of the whole list.
proof fn lemma_first_failure(
    ids: Seq<CurveId>,
    k: int,
    curves: Map<u128, Curve>,
    flattened: Seq<Seq<Point2>>,
)
    requires
        0 <= k <= ids.len(),
        resolved_loops(ids.take(k), curves, flattened).is_err(),
    ensures
        resolved_loops(ids, curves, flattened) == resolved_loops(ids.take(k), curves, flattened),
    decreases ids.len() - k,
{
    if k == ids.len() {
        assert(ids.take(k) =~= ids);
    } else {
        assert(ids.take(k + 1).drop_last() =~= ids.take(k));
        lemma_first_failure(ids, k + 1, curves, flattened);
    }
}

/// The loops of at least three vertices, in their order.
fn keep_usable(loops: &Vec<Vec<Point2>>, from: usize) -> (r: Vec<Vec<Point2>>)
    requires
        from <= loops@.len(),
    ensures
        loops_view(r@) == usable_loops(loops_view(loops@).skip(from as int)),
{
    let ghost all = loops_view(loops@).skip(from as int);
    let mut kept: Vec<Vec<Point2>> = Vec::new();
    let mut i: usize = from;
    proof {
        assert(all.take(0) =~= Seq::<Seq<Point2>>::empty());
        assert(loops_view(kept@) =~= Seq::<Seq<Point2>>::empty());
    }
    while i < loops.len()
        invariant
            from <= i <= loops@.len(),
            all == loops_view(loops@).skip(from as int),
            loops_view(kept@) == usable_loops(all.take(i - from)),
        decreases loops@.len() - i,
    {
        let ghost next = all.take(i - from + 1);
        proof {
            assert(next.drop_last() =~= all.take(i - from));
            assert(next.last() == loops@[i as int]@);
        }
        if loops[i].len() >= 3 {
            let copy = copy_list(&loops[i]);
            proof {
                lemma_loops_view_push(kept@, copy);
            }
            kept.push(copy);
        }
        i = i + 1;
    }
    assert(all.take(loops@.len() - from) =~= all);
    kept
}

/// The failure of an operation that has no polygon to work on.
fn no_geometry_error(operation: &Operation) -> (r: CamError)
    ensures
        r == no_geometry(*operation),
{
    match operation {
        Operation::Profile { .. } => CamError::ProfileRequiresGeometry,
        Operation::Pocket { .. } => CamError::PocketRequiresClosedCurve,
        Operation::VCarve { .. } => CamError::VCarveRequiresPolygon,
    }
}

/// Appends copies of the loops from position `from` up to `to`.
fn append_loops(polygons: &mut Vec<Vec<Point2>>, loops: &Vec<Vec<Point2>>, from: usize, to: usize)
    requires
        from <= to <= loops@.len(),
    ensures
        loops_view(final(polygons)@) == loops_view(old(polygons)@) + loops_view(loops@).subrange(
            from as int,
            to as int,
        ),
{
    let ghost start = loops_view(polygons@);
    let ghost all = loops_view(loops@);
    let mut h: usize = from;
    assert(start + all.subrange(from as int, from as int) =~= start);
    while h < to
        invariant
            from <= h <= to <= loops@.len(),
            all == loops_view(loops@),
            loops_view(polygons@) == start + all.subrange(from as int, h as int),
        decreases to - h,
    {
        let copy = copy_list(&loops[h]);
        proof {
            lemma_loops_view_push(polygons@, copy);
            assert((start + all.subrange(from as int, h as int)).push(copy@) =~= start
                + all.subrange(from as int, h + 1));
        }
        polygons.push(copy);
        h = h + 1;
    }
}

/// Arranges the closed loops of an operation as its polygons.
fn arrange_polygons(operation: &Operation, loops: &Vec<Vec<Point2>>) -> (r: Result<
    Vec<Vec<Point2>>,
    CamError,
>)
    ensures
        match r {
            Ok(polygons) => arranged_polygons(*operation, loops_view(loops@)) == Ok::<
                Seq<Seq<Point2>>,
                CamError,
            >(loops_view(polygons@)),
            Err(e) => arranged_polygons(*operation, loops_view(loops@)) == Err::<
                Seq<Seq<Point2>>,
                CamError,
            >(e),
        },
{
    let ghost views = loops_view(loops@);
    assert(views.skip(0) =~= views);
    let is_region = match operation.target() {
        OperationTarget::Region(_) => true,
        OperationTarget::Curves(_) => false,
    };
    let mut polygons: Vec<Vec<Point2>> = Vec::new();
    assert(loops_view(polygons@) =~= Seq::<Seq<Point2>>::empty());
    if is_region {
        if loops.len() == 0 || loops[0].len() < 3 {
            return Err(no_geometry_error(operation));
        }
        append_loops(&mut polygons, loops, 0, 1);
        assert(views.subrange(0, 1) =~= seq![views[0]]);
        match operation {
            Operation::Profile { .. } => Ok(polygons),
            _ => {
                let holes = keep_usable(loops, 1);
                assert(views.skip(1) =~= views.drop_first());
                append_loops(&mut polygons, &holes, 0, holes.len());
                assert(loops_view(holes@).subrange(0, holes@.len() as int) =~= loops_view(holes@));
                Ok(polygons)
            },
        }
    } else {
        let usable = keep_usable(loops, 0);
        let n: usize = usable.len();
        let ghost kept = loops_view(usable@);
        match operation {
            Operation::Profile { .. } => {
                if n > 0 {
                    append_loops(&mut polygons, &usable, 0, 1);
                    assert(kept.subrange(0, 1) =~= seq![kept[0]]);
                }
                Ok(polygons)
            },
            Operation::Pocket { .. } => {
                if n == 0 {
                    return Err(CamError::PocketRequiresClosedCurve);
                }
                append_loops(&mut polygons, &usable, n - 1, n);
                assert(kept.subrange(n - 1, n as int) =~= seq![kept.last()]);
                append_loops(&mut polygons, &usable, 0, n - 1);
                assert(kept.subrange(0, n - 1) =~= kept.drop_last());
                Ok(polygons)
            },
            Operation::VCarve { .. } => Ok(usable),
        }
    }
}

/// The polygons of the operation at `index`, as a preview shows them, from
/// the polylines that the host made of the curves of `flatten_requests`:
/// `flattened[k]` is the polyline of the `k`-th request. Each polyline is
/// closed by appending its first vertex where its last differs, and loops
/// of fewer than three vertices are discarded.
///
/// Fails with `InvalidOperationIndex` for an index without operation, with
/// `RegionNotFound` or `CurveNotFound` for a reference that the registry
/// does not hold, with `CurveEmpty` for a curve without polyline or with an
/// empty one, with `PocketRequiresClosedCurve` for a pocket along curves of
/// which none has three vertices, and as `no_geometry` says for a region
/// whose outer loop has fewer than three vertices.
pub fn polygons_for_operation(project: &Project, index: usize, flattened: &Vec<Vec<Point2>>) -> (r:
    Result<Vec<Vec<Point2>>, CamError>)
    ensures
        index >= project.operations@.len() ==> r == Err::<Vec<Vec<Point2>>, CamError>(
            CamError::InvalidOperationIndex(index),
        ),
        index < project.operations@.len() ==> match r {
            Ok(polygons) => operation_polygons(
                project.operations@[index as int],
                project.shapes,
                loops_view(flattened@),
            ) == Ok::<Seq<Seq<Point2>>, CamError>(loops_view(polygons@)),
            Err(e) => operation_polygons(
                project.operations@[index as int],
                project.shapes,
                loops_view(flattened@),
            ) == Err::<Seq<Seq<Point2>>, CamError>(e),
        },
{
    if index >= project.operations.len() {
        return Err(CamError::InvalidOperationIndex(index));
    }
    operation_loops(&project.operations[index], &project.shapes, flattened)
}

/// The polygons of an operation from the polylines of its curves.
fn operation_loops(operation: &Operation, registry: &ShapeRegistry, flattened: &Vec<Vec<Point2>>) -> (r:
    Result<Vec<Vec<Point2>>, CamError>)
    ensures
        match r {
            Ok(polygons) => operation_polygons(*operation, *registry, loops_view(flattened@))
                == Ok::<Seq<Seq<Point2>>, CamError>(loops_view(polygons@)),
            Err(e) => operation_polygons(*operation, *registry, loops_view(flattened@)) == Err::<
                Seq<Seq<Point2>>,
                CamError,
            >(e),
        },
{
    let ids = match curves_of_operation(operation, registry) {
        Ok(ids) => ids,
        Err(e) => {
            return Err(e);
        },
    };
    let loops = match resolve_loops(&ids, registry, flattened) {
        Ok(loops) => loops,
        Err(e) => {
            return Err(e);
        },
    };
    arrange_polygons(operation, &loops)
}

/// A polygon that an operation works on: at least three vertices, and the
/// last equal to the first. (A first vertex with a coordinate that is not
/// a number equals nothing, itself included.)
pub open spec fn closed_polygon(polygon: Seq<Point2>) -> bool {
    &&& polygon.len() >= 3
    &&& !polygon[0].0.nan() && !polygon[0].1.nan() ==> same_point2(polygon[0], polygon.last())
}

/// Every loop that is left has at least three vertices and is one of the loops.
pub proof fn lemma_usable_loops(loops: Seq<Seq<Point2>>)
    ensures
        usable_loops(loops).len() <= loops.len(),
        forall|i: int|
            0 <= i < usable_loops(loops).len() ==> (#[trigger] usable_loops(loops)[i]).len() >= 3
                && loops.contains(usable_loops(loops)[i]),
    decreases loops.len(),
{
    if loops.len() > 0 {
        let rest = loops.drop_last();
        lemma_usable_loops(rest);
        assert forall|i: int| 0 <= i < usable_loops(loops).len() implies (
        #[trigger] usable_loops(loops)[i]).len() >= 3 && loops.contains(usable_loops(loops)[i]) by {
            if i < usable_loops(rest).len() {
                let item = usable_loops(rest)[i];
                assert(rest.contains(item));
                let j = choose|j: int| 0 <= j < rest.len() && rest[j] == item;
                assert(loops[j] == item);
            } else {
                assert(usable_loops(loops)[i] == loops[loops.len() - 1]);
            }
        }
    }
}

/// The loops of the curves are the closed polylines, one for each curve.
pub proof fn lemma_resolved_loops(
    ids: Seq<CurveId>,
    curves: Map<u128, Curve>,
    flattened: Seq<Seq<Point2>>,
)
    ensures
        match resolved_loops(ids, curves, flattened) {
            Ok(loops) => {
                &&& loops.len() == ids.len()
                &&& ids.len() <= flattened.len()
                &&& forall|k: int|
                    0 <= k < ids.len() ==> (#[trigger] loops[k]) == closed_loop(flattened[k])
                        && curves.contains_key(ids[k].value) && flattened[k].len() > 0
            },
            Err(_) => true,
        },
    decreases ids.len(),
{
    if ids.len() > 0 {
        let front = ids.drop_last();
        lemma_resolved_loops(front, curves, flattened);
        if resolved_loops(ids, curves, flattened).is_ok() {
            let before = resolved_loops(front, curves, flattened)->Ok_0;
            let loops = resolved_loops(ids, curves, flattened)->Ok_0;
            let last = ids.len() - 1;
            assert(resolved_loops(front, curves, flattened).is_ok());
            assert(loops == before.push(closed_loop(flattened[last])));
            assert(curves.contains_key(ids[last].value) && flattened[last].len() > 0);
            assert forall|k: int| 0 <= k < ids.len() implies (#[trigger] loops[k]) == closed_loop(
                flattened[k],
            ) && curves.contains_key(ids[k].value) && flattened[k].len() > 0 by {
                if k < last {
                    assert(ids[k] == front[k]);
                    assert(before[k] == closed_loop(flattened[k]));
                    assert(loops[k] == before[k]);
                }
            }
        }
    }
}

/// An operation that targets a curve or a region that the registry does
/// not hold has no polygons: resolving it fails, whatever the polylines.
pub proof fn lemma_dangling_reference_fails(
    operation: Operation,
    registry: ShapeRegistry,
    flattened: Seq<Seq<Point2>>,
    k: int,
)
    requires
        match curves_read(operation, registry.regions@) {
            Ok(ids) => 0 <= k < ids.len() && !registry.curves@.contains_key(ids[k].value),
            Err(_) => true,
        },
    ensures
        operation_polygons(operation, registry, flattened).is_err(),
{
    match curves_read(operation, registry.regions@) {
        Ok(ids) => {
            lemma_resolved_loops(ids, registry.curves@, flattened);
            match resolved_loops(ids, registry.curves@, flattened) {
                Ok(loops) => {
                    assert(loops[k] == closed_loop(flattened[k]));
                    assert(registry.curves@.contains_key(ids[k].value));
                },
                Err(_) => {},
            }
        },
        Err(_) => {},
    }
}

/// Every polygon of an operation has at least three vertices and is closed.
pub proof fn lemma_polygons_closed(
    operation: Operation,
    registry: ShapeRegistry,
    flattened: Seq<Seq<Point2>>,
)
    ensures
        match operation_polygons(operation, registry, flattened) {
            Ok(polygons) => forall|i: int|
                0 <= i < polygons.len() ==> closed_polygon(#[trigger] polygons[i]),
            Err(_) => true,
        },
{
    match curves_read(operation, registry.regions@) {
        Err(_) => {},
        Ok(ids) => {
            lemma_resolved_loops(ids, registry.curves@, flattened);
            match resolved_loops(ids, registry.curves@, flattened) {
                Err(_) => {},
                Ok(loops) => {
                    lemma_usable_loops(loops);
                    assert forall|p: Seq<Point2>| loops.contains(p) && p.len() >= 3 implies closed_polygon(
                        p,
                    ) by {
                        let j = choose|j: int| 0 <= j < loops.len() && loops[j] == p;
                        assert(loops[j] == closed_loop(flattened[j]));
                    }
                    match arranged_polygons(operation, loops) {
                        Err(_) => {},
                        Ok(polygons) => {
                            let usable = usable_loops(loops);
                            assert forall|i: int| 0 <= i < polygons.len() implies closed_polygon(
                                #[trigger] polygons[i],
                            ) by {
                                if operation.target_of() is Region {
                                    if i == 0 {
                                        assert(loops.contains(loops[0]));
                                    } else {
                                        let rest = loops.drop_first();
                                        lemma_usable_loops(rest);
                                        let item = usable_loops(rest)[i - 1];
                                        assert(polygons[i] == item);
                                        assert(rest.contains(item));
                                        let j = choose|j: int| 0 <= j < rest.len() && rest[j] == item;
                                        assert(loops[j + 1] == item);
                                    }
                                } else {
                                    match operation {
                                        Operation::Profile { .. } => {
                                            assert(polygons[i] == usable[0]);
                                        },
                                        Operation::Pocket { .. } => {
                                            if i == 0 {
                                                assert(polygons[i] == usable[usable.len() - 1]);
                                            } else {
                                                assert(polygons[i] == usable[i - 1]);
                                            }
                                        },
                                        Operation::VCarve { .. } => {},
                                    }
                                }
                            }
                        },
                    }
                },
            }
        },
    }
}

/// A V-carve whose tool is in the library and is not a V-bit, and whose
/// targets give a polygon, fails with `VCarveRequiresVBit`, unless its
/// clearance tool is missing from the library.
pub proof fn lemma_vcarve_requires_vbit(
    operation: Operation,
    tools: Seq<Tool>,
    registry: ShapeRegistry,
    flattened: Seq<Seq<Point2>>,
)
    requires
        operation is VCarve,
        operation.tool_of() < tools.len(),
        vbit_angle_of(tools[operation.tool_of() as int]).is_none(),
        operation_polygons(operation, registry, flattened).is_ok(),
        operation_polygons(operation, registry, flattened)->Ok_0.len() > 0,
        operation->VCarve_clearance_tool_index.is_some() ==> operation->VCarve_clearance_tool_index->0
            < tools.len(),
    ensures
        preparation_failure(operation, tools, registry, flattened) == Some(
            CamError::VCarveRequiresVBit,
        ),
{
}

/// The depth of a clearance pass: the maximal depth where one above zero
/// is given, else one millimetre.
pub open spec fn clearance_depth_of(target_depth: Option<Scalar>) -> Scalar {
    match target_depth {
        Some(depth) => if depth.positive() {
            depth
        } else {
            Scalar { bits: ONE_BITS }
        },
        None => Scalar { bits: ONE_BITS },
    }
}

/// Whether the depth of a clearance pass had to be made up.
pub open spec fn clearance_depth_defaulted(target_depth: Option<Scalar>) -> bool {
    match target_depth {
        Some(depth) => !depth.positive(),
        None => true,
    }
}

/// Why an operation cannot be handed to its generator, if it cannot. The
/// checks are made in this order: the tool, the region and the curves in
/// the order in which they are read, the polygons, and for a V-carve the
/// clearance tool and the kind of the carving tool.
pub open spec fn preparation_failure(
    operation: Operation,
    tools: Seq<Tool>,
    registry: ShapeRegistry,
    flattened: Seq<Seq<Point2>>,
) -> Option<CamError> {
    if operation.tool_of() >= tools.len() {
        Some(CamError::ToolNotFound(operation.tool_of()))
    } else {
        match operation_polygons(operation, registry, flattened) {
            Err(e) => Some(e),
            Ok(polygons) => match operation {
                Operation::Profile { .. } => if polygons.len() == 0 {
                    Some(CamError::ProfileRequiresGeometry)
                } else {
                    None
                },
                Operation::Pocket { .. } => None,
                Operation::VCarve { clearance_tool_index, .. } => if polygons.len() == 0 {
                    Some(CamError::VCarveRequiresPolygon)
                } else if clearance_tool_index.is_some() && clearance_tool_index.unwrap()
                    >= tools.len() {
                    Some(CamError::ToolNotFound(clearance_tool_index.unwrap()))
                } else if vbit_angle_of(tools[operation.tool_of() as int]).is_none() {
                    Some(CamError::VCarveRequiresVBit)
                } else {
                    None
                },
            },
        }
    }
}

/// The polygons of a V-carve job are those of the operation: one polygon
/// without holes for each loop of a list of curves, or one polygon with
/// holes for a region.
pub open spec fn carve_polygons_agree(
    carved: Seq<CarvePolygon>,
    target: OperationTarget,
    polygons: Seq<Seq<Point2>>,
) -> bool {
    match target {
        OperationTarget::Curves(_) => carved.len() == polygons.len() && forall|i: int|
            0 <= i < carved.len() ==> (#[trigger] carved[i]).outer@ == polygons[i]
                && carved[i].holes@.len() == 0,
        OperationTarget::Region(_) => carved.len() == 1 && carved[0].outer@ == polygons[0]
            && loops_view(carved[0].holes@) == polygons.drop_first(),
    }
}

/// The texts of a list of warnings.
pub open spec fn warning_texts(warnings: Seq<String>) -> Seq<Seq<char>> {
    Seq::new(warnings.len(), |i: int| warnings[i]@)
}

/// The job is the one of the operation, on its polygons.
pub open spec fn job_agrees(
    job: GeneratorJob,
    operation: Operation,
    tools: Seq<Tool>,
    polygons: Seq<Seq<Point2>>,
) -> bool {
    match (job, operation) {
        (
            GeneratorJob::Profile { tool_index, cut_side, target_depth, polygon },
            Operation::Profile { target_depth: depth, cut_side: side, tool_index: tool, .. },
        ) => tool_index == tool && cut_side == side && target_depth == depth && polygon@
            == polygons[0],
        (
            GeneratorJob::Pocket { tool_index, target_depth, outer, holes },
            Operation::Pocket { target_depth: depth, tool_index: tool, .. },
        ) => tool_index == tool && target_depth == depth && outer@ == polygons[0] && loops_view(
            holes@,
        ) == polygons.drop_first(),
        (
            GeneratorJob::VCarve {
                tool_index,
                angle_degrees,
                max_depth,
                polygons: carved,
                clearance,
                warnings,
            },
            Operation::VCarve { target_depth, tool_index: tool, clearance_tool_index, .. },
        ) => {
            &&& tool_index == tool
            &&& vbit_angle_of(tools[tool as int]) == Some(angle_degrees)
            &&& max_depth == target_depth
            &&& carve_polygons_agree(carved@, operation.target_of(), polygons)
            &&& clearance == match clearance_tool_index {
                Some(index) => Some(
                    ClearanceJob { tool_index: index, depth: clearance_depth_of(target_depth) },
                ),
                None => None,
            }
            &&& warning_texts(warnings@) == if clearance_tool_index.is_some()
                && clearance_depth_defaulted(target_depth) {
                seq![clearance_warning()]
            } else {
                Seq::empty()
            }
        },
        _ => false,
    }
}

/// The polygons of a V-carve job from the polygons of the operation.
fn carve_polygons(target: &OperationTarget, polygons: &Vec<Vec<Point2>>) -> (r: Vec<CarvePolygon>)
    requires
        polygons@.len() >= 1,
    ensures
        carve_polygons_agree(r@, *target, loops_view(polygons@)),
{
    let mut carved: Vec<CarvePolygon> = Vec::new();
    match target {
        OperationTarget::Curves(_) => {
            let mut i: usize = 0;
            while i < polygons.len()
                invariant
                    0 <= i <= polygons@.len(),
                    carved@.len() == i,
                    forall|j: int|
                        0 <= j < i ==> (#[trigger] carved@[j]).outer@ == polygons@[j]@
                            && carved@[j].holes@.len() == 0,
                decreases polygons@.len() - i,
            {
                carved.push(CarvePolygon { outer: copy_list(&polygons[i]), holes: Vec::new() });
                i = i + 1;
            }
        },
        OperationTarget::Region(_) => {
            let mut holes: Vec<Vec<Point2>> = Vec::new();
            let mut i: usize = 1;
            while i < polygons.len()
                invariant
                    1 <= i <= polygons@.len(),
                    holes@.len() == i - 1,
                    forall|j: int| 0 <= j < i - 1 ==> holes@[j]@ == polygons@[j + 1]@,
                decreases polygons@.len() - i,
            {
                holes.push(copy_list(&polygons[i]));
                i = i + 1;
            }
            assert(loops_view(holes@) =~= loops_view(polygons@).drop_first());
            carved.push(CarvePolygon { outer: copy_list(&polygons[0]), holes });
        },
    }
    carved
}

/// The second step of generating the toolpaths of the operation at `index`:
/// what its generator is to work on, from the polylines that the host made
/// of the curves of `plan_operation`, in their order.
///
/// A profile follows its polygon; a pocket clears its outer polygon
/// without the others; a V-carve carves its polygons. A V-carve with a
/// clearance tool gets a clearance job at the maximal depth, or at one
/// millimetre and with a warning where no maximal depth above zero is given.
///
/// Fails as `preparation_failure` says, or with `InvalidOperationIndex` for
/// an index without operation.
pub fn prepare_operation(
    project: &Project,
    tools: &ToolLibrary,
    index: usize,
    flattened: &Vec<Vec<Point2>>,
) -> (r: Result<GeneratorJob, CamError>)
    ensures
        index >= project.operations@.len() ==> r == Err::<GeneratorJob, CamError>(
            CamError::InvalidOperationIndex(index),
        ),
        index < project.operations@.len() ==> match r {
            Ok(job) => preparation_failure(
                project.operations@[index as int],
                tools.tools@,
                project.shapes,
                loops_view(flattened@),
            ).is_none() && job_agrees(
                job,
                project.operations@[index as int],
                tools.tools@,
                operation_polygons(
                    project.operations@[index as int],
                    project.shapes,
                    loops_view(flattened@),
                ).unwrap(),
            ),
            Err(e) => preparation_failure(
                project.operations@[index as int],
                tools.tools@,
                project.shapes,
                loops_view(flattened@),
            ) == Some(e),
        },
{
    if index >= project.operations.len() {
        return Err(CamError::InvalidOperationIndex(index));
    }
    let operation = &project.operations[index];
    let tool_index = operation.tool_index();
    if tool_index >= tools.tools.len() {
        return Err(CamError::ToolNotFound(tool_index));
    }
    let polygons = match operation_loops(operation, &project.shapes, flattened) {
        Ok(polygons) => polygons,
        Err(e) => {
            return Err(e);
        },
    };
    let ghost views = loops_view(polygons@);
    match operation {
        Operation::Profile { target_depth, cut_side, tool_index, targets: _ } => {
            if polygons.len() == 0 {
                return Err(CamError::ProfileRequiresGeometry);
            }
            Ok(
                GeneratorJob::Profile {
                    tool_index: *tool_index,
                    cut_side: *cut_side,
                    target_depth: *target_depth,
                    polygon: copy_list(&polygons[0]),
                },
            )
        },
        Operation::Pocket { target_depth, tool_index, target: _ } => {
            assert(polygons@.len() >= 1) by {
                lemma_arranged_has_outer(
                    *operation,
                    project.shapes,
                    loops_view(flattened@),
                );
            }
            let mut holes: Vec<Vec<Point2>> = Vec::new();
            let mut i: usize = 1;
            while i < polygons.len()
                invariant
                    1 <= i <= polygons@.len(),
                    holes@.len() == i - 1,
                    forall|j: int| 0 <= j < i - 1 ==> holes@[j]@ == polygons@[j + 1]@,
                decreases polygons@.len() - i,
            {
                holes.push(copy_list(&polygons[i]));
                i = i + 1;
            }
            assert(loops_view(holes@) =~= views.drop_first());
            Ok(
                GeneratorJob::Pocket {
                    tool_index: *tool_index,
                    target_depth: *target_depth,
                    outer: copy_list(&polygons[0]),
                    holes,
                },
            )
        },
        Operation::VCarve { target_depth, tool_index, targets, clearance_tool_index } => {
            if polygons.len() == 0 {
                return Err(CamError::VCarveRequiresPolygon);
            }
            let carved = carve_polygons(targets, &polygons);
            let mut warnings: Vec<String> = Vec::new();
            assert(warning_texts(warnings@) =~= Seq::<Seq<char>>::empty());
            let clearance = match clearance_tool_index {
                Some(clearance_index) => {
                    if *clearance_index >= tools.tools.len() {
                        return Err(CamError::ToolNotFound(*clearance_index));
                    }
                    let depth = match target_depth {
                        Some(depth) => {
                            if depth.is_positive() {
                                Some(*depth)
                            } else {
                                None
                            }
                        },
                        None => None,
                    };
                    let depth = match depth {
                        Some(depth) => depth,
                        None => {
                            warnings.push(
                                String::from_str(
                                    "Clearance tool selected without a max depth; defaulting to 1mm.",
                                ),
                            );
                            assert(warning_texts(warnings@) =~= seq![clearance_warning()]);
                            Scalar::one()
                        },
                    };
                    Some(ClearanceJob { tool_index: *clearance_index, depth })
                },
                None => None,
            };
            let angle_degrees = match vbit_angle(&tools.tools[*tool_index]) {
                Ok(angle) => angle,
                Err(e) => {
                    return Err(e);
                },
            };
            Ok(
                GeneratorJob::VCarve {
                    tool_index: *tool_index,
                    angle_degrees,
                    max_depth: *target_depth,
                    polygons: carved,
                    clearance,
                    warnings,
                },
            )
        },
    }
}

/// The polygons of a pocket, where there are any, begin with its outer boundary.
proof fn lemma_arranged_has_outer(
    operation: Operation,
    registry: ShapeRegistry,
    flattened: Seq<Seq<Point2>>,
)
    requires
        operation is Pocket,
    ensures
        match operation_polygons(operation, registry, flattened) {
            Ok(polygons) => polygons.len() >= 1,
            Err(_) => true,
        },
{
}

/// The toolpaths of an operation as they are stored: the toolpath of the
/// operation's own tool, and the passes in the order in which they are cut,
/// a clearance pass before the finishing pass. The result is valid, and
/// carries the warnings.
pub open spec fn artifact_holds(
    artifact: ToolpathArtifact,
    operation_index: usize,
    tool_index: usize,
    finish: Toolpath,
    clearance: Option<(usize, Toolpath)>,
    warnings: Seq<Seq<char>>,
) -> bool {
    &&& artifact.operation_index == operation_index
    &&& artifact.toolpath@ == finish@
    &&& artifact.is_valid
    &&& warning_texts(artifact.warnings@) == warnings
    &&& match clearance {
        Some((clearance_index, cleared)) => {
            &&& artifact.passes@.len() == 2
            &&& artifact.passes@[0].tool_index == clearance_index
            &&& artifact.passes@[0].kind == ToolpathPassKind::Clearance
            &&& artifact.passes@[0].toolpath == cleared
            &&& artifact.passes@[1].tool_index == tool_index
            &&& artifact.passes@[1].kind == ToolpathPassKind::Finish
            &&& artifact.passes@[1].toolpath@ == finish@
        },
        None => {
            &&& artifact.passes@.len() == 1
            &&& artifact.passes@[0].tool_index == tool_index
            &&& artifact.passes@[0].kind == ToolpathPassKind::Finish
            &&& artifact.passes@[0].toolpath@ == finish@
        },
    }
}

/// The third step of generating the toolpaths of an operation: what is
/// stored of the generated toolpaths, stamped with the time now. The
/// warnings are returned beside it for the report.
pub fn build_artifact(
    operation_index: usize,
    tool_index: usize,
    finish: Toolpath,
    clearance: Option<(usize, Toolpath)>,
    warnings: Vec<String>,
) -> (r: (ToolpathArtifact, Vec<String>))
    ensures
        artifact_holds(
            r.0,
            operation_index,
            tool_index,
            finish,
            clearance,
            warning_texts(warnings@),
        ),
        r.1 == warnings,
{
    let mut passes: Vec<ToolpathPass> = Vec::new();
    match clearance {
        Some((clearance_index, cleared)) => {
            passes.push(ToolpathPass::new(clearance_index, ToolpathPassKind::Clearance, cleared));
        },
        None => {},
    }
    passes.push(ToolpathPass::new(tool_index, ToolpathPassKind::Finish, finish.duplicate()));
    let stored = duplicate_texts(&warnings);
    assert(warning_texts(stored@) =~= warning_texts(warnings@));
    let artifact = ToolpathArtifact {
        operation_index,
        toolpath: finish,
        passes,
        generated_at_epoch_ms: current_epoch_ms(),
        warnings: stored,
        is_valid: true,
    };
    (artifact, warnings)
}

/// The outcome of generating the toolpaths of one operation.
pub type GenerationResult = Result<(ToolpathArtifact, Vec<String>), CamError>;

/// The slots of a project after the outcome for the operation at `index`
/// was recorded: generated toolpaths are stored and the operation is clean,
/// where the index has a slot or an operation; a failure changes nothing.
pub open spec fn recorded_states(
    states: Seq<crate::project::OperationState>,
    count: nat,
    index: usize,
    result: GenerationResult,
) -> Seq<crate::project::OperationState> {
    match result {
        Ok((artifact, _)) => {
            let slots = crate::project::ensured_states(states, count, index as nat);
            if index < slots.len() {
                slots.update(
                    index as int,
                    crate::project::OperationState { dirty: false, artifact: Some(artifact) },
                )
            } else {
                slots
            }
        },
        Err(_) => states,
    }
}

/// The report is the one of the outcome for the operation at `index`:
/// ready, with the warnings, where toolpaths were generated and stored;
/// dirty, with the message of the failure, where they were not.
pub open spec fn report_tells(
    report: ToolpathGenerationReport,
    states: Seq<crate::project::OperationState>,
    count: nat,
    index: usize,
    result: GenerationResult,
) -> bool {
    &&& report.operation_index == index
    &&& match result {
        Ok((artifact, warnings)) => if index < crate::project::ensured_states(
            states,
            count,
            index as nat,
        ).len() {
            &&& report.status == (ToolpathStatus::Ready {
                generated_at_epoch_ms: artifact.generated_at_epoch_ms,
                warning_count: warnings@.len() as usize,
            })
            &&& report.warnings == warnings
            &&& report.error.is_none()
        } else {
            &&& report.status == ToolpathStatus::Dirty
            &&& report.warnings@.len() == 0
            &&& report.error.is_some()
            &&& report.error.unwrap()@ == CamError::InvalidOperationIndex(index).message_text()
        },
        Err(e) => {
            &&& report.status == ToolpathStatus::Dirty
            &&& report.warnings@.len() == 0
            &&& report.error.is_some()
            &&& report.error.unwrap()@ == e.message_text()
        },
    }
}

/// The report of a carving that failed for want of a V-bit names the V-bit
/// in its error, and says that the operation is dirty.
pub proof fn lemma_vbit_report(
    report: ToolpathGenerationReport,
    states: Seq<crate::project::OperationState>,
    count: nat,
    index: usize,
)
    requires
        report_tells(
            report,
            states,
            count,
            index,
            Err::<(ToolpathArtifact, Vec<String>), CamError>(CamError::VCarveRequiresVBit),
        ),
    ensures
        report.status == ToolpathStatus::Dirty,
        report.error.is_some(),
        report.error.unwrap()@.subrange(19, 24) == "V-bit"@,
{
    crate::error::lemma_vbit_message();
}

/// Records the outcome of generating the toolpaths of the operation at
/// `index`, and reports it. Generated toolpaths are attached to the
/// operation, which makes it clean. A failure leaves the project as it
/// was: the operation keeps its slot, dirty or not, and its earlier
/// toolpaths.
pub fn record_generation(project: &mut Project, index: usize, result: GenerationResult) -> (report:
    ToolpathGenerationReport)
    ensures
        final(project).operation_states@ == recorded_states(
            old(project).operation_states@,
            old(project).operations@.len(),
            index,
            result,
        ),
        *final(project) == (Project {
            operation_states: final(project).operation_states,
            ..*old(project)
        }),
        result.is_err() ==> *final(project) == *old(project),
        report_tells(
            report,
            old(project).operation_states@,
            old(project).operations@.len(),
            index,
            result,
        ),
{
    match result {
        Ok((artifact, warnings)) => {
            let status = ToolpathStatus::Ready {
                generated_at_epoch_ms: artifact.generated_at_epoch_ms,
                warning_count: warnings.len(),
            };
            match project.attach_toolpath(index, artifact) {
                Ok(()) => ToolpathGenerationReport {
                    operation_index: index,
                    status,
                    warnings,
                    error: None,
                },
                Err(e) => ToolpathGenerationReport {
                    operation_index: index,
                    status: ToolpathStatus::Dirty,
                    warnings: Vec::new(),
                    error: Some(e.message()),
                },
            }
        },
        Err(e) => ToolpathGenerationReport {
            operation_index: index,
            status: ToolpathStatus::Dirty,
            warnings: Vec::new(),
            error: Some(e.message()),
        },
    }
}

/// The slots of a project after the first `k` outcomes were recorded, the
/// outcome at position `i` for the operation at index `i`.
pub open spec fn states_after(
    states: Seq<crate::project::OperationState>,
    count: nat,
    results: Seq<GenerationResult>,
    k: nat,
) -> Seq<crate::project::OperationState>
    decreases k,
{
    if k == 0 {
        states
    } else {
        recorded_states(
            states_after(states, count, results, (k - 1) as nat),
            count,
            (k - 1) as usize,
            results[k - 1],
        )
    }
}

/// The outcomes in the opposite order.
fn reversed(results: Vec<GenerationResult>) -> (r: Vec<GenerationResult>)
    ensures
        r@.len() == results@.len(),
        forall|i: int| 0 <= i < r@.len() ==> r@[i] == results@[results@.len() - 1 - i],
{
    let mut pending = results;
    let mut out: Vec<GenerationResult> = Vec::new();
    let ghost n = results@.len();
    while pending.len() > 0
        invariant
            n == results@.len(),
            pending@.len() + out@.len() == n,
            pending@ == results@.take(pending@.len() as int),
            forall|i: int| 0 <= i < out@.len() ==> out@[i] == results@[n - 1 - i],
        decreases pending@.len(),
    {
        let ghost before = pending@;
        let item = pending.pop().unwrap();
        assert(item == results@[before.len() - 1]);
        assert(pending@ =~= results@.take(pending@.len() as int));
        out.push(item);
    }
    out
}

/// Records the outcomes of generating the toolpaths of the operations, the
/// outcome at position `i` for the operation at index `i`, in this order,
/// and reports each. An operation whose toolpaths were generated becomes
/// clean and holds them; one whose generation failed stays as it was, and
/// the failure of one operation does not touch the others.
pub fn generate_toolpaths_for_operations(project: &mut Project, results: Vec<GenerationResult>) -> (reports:
    Vec<ToolpathGenerationReport>)
    ensures
        final(project).operation_states@ == states_after(
            old(project).operation_states@,
            old(project).operations@.len(),
            results@,
            results@.len(),
        ),
        *final(project) == (Project {
            operation_states: final(project).operation_states,
            ..*old(project)
        }),
        reports@.len() == results@.len(),
        forall|i: int|
            0 <= i < reports@.len() ==> report_tells(
                #[trigger] reports@[i],
                states_after(
                    old(project).operation_states@,
                    old(project).operations@.len(),
                    results@,
                    i as nat,
                ),
                old(project).operations@.len(),
                i as usize,
                results@[i],
            ),
{
    let ghost states = project.operation_states@;
    let ghost count = project.operations@.len();
    let total: usize = results.len();
    let ghost n = results@.len();
    let mut pending = reversed(results);
    let mut reports: Vec<ToolpathGenerationReport> = Vec::new();
    let mut index: usize = 0;
    while pending.len() > 0
        invariant
            n == results@.len(),
            n == total,
            index + pending@.len() == n,
            forall|i: int| 0 <= i < pending@.len() ==> pending@[i] == results@[n - 1 - i],
            count == project.operations@.len(),
            project.operation_states@ == states_after(states, count, results@, index as nat),
            *project == (Project { operation_states: project.operation_states, ..*old(project) }),
            reports@.len() == index,
            forall|i: int|
                0 <= i < index ==> report_tells(
                    #[trigger] reports@[i],
                    states_after(states, count, results@, i as nat),
                    count,
                    i as usize,
                    results@[i],
                ),
        decreases pending@.len(),
    {
        let result = pending.pop().unwrap();
        assert(result == results@[index as int]);
        let report = record_generation(project, index, result);
        reports.push(report);
        index = index + 1;
    }
    reports
}

} // verus!
