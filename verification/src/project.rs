//! The project: stock, shapes, operations and their generated toolpaths.
use vstd::prelude::*;
use ulid::Ulid;
use crate::error::CamError;
use crate::geometry::curve::Affine;
use crate::geometry::ids::{CurveId, RegionId, ShapeId};
use crate::geometry::registry::ShapeRegistry;
use crate::geometry::svg::{curves_imported, node_paths, shapes_imported, SvgNode};
use crate::lists::copy_list;
use crate::scalar::Scalar;
use crate::text::{file_stem, lemma_whole_is_part, name_from_stem, part_of};
use crate::types::{Operation, OperationTarget, Point3, Toolpath};

verus! {

/// The layout of a stored project. Raised when the layout changes.
pub const PROJECT_FILE_VERSION: u32 = 1;

/// Name, timestamps and versions of a project.
#[derive(Clone, Debug)]
pub struct ProjectMeta {
    pub name: String,
    pub description: Option<String>,
    pub version: u32,
    pub created_at_epoch_ms: u64,
    pub updated_at_epoch_ms: u64,
    pub file_version: u32,
}

/// The block of material that is machined.
#[derive(Clone, Debug)]
pub struct StockSpec {
    pub width: Scalar,
    pub height: Scalar,
    pub thickness: Scalar,
    /// Material, or notes.
    pub material: Option<String>,
    /// Where the stock's corner lies, if not at the origin.
    pub origin: Option<Point3>,
}

impl StockSpec {
    /// Stock of the given size, without material or origin.
    pub fn new(width: Scalar, height: Scalar, thickness: Scalar) -> (r: StockSpec)
        ensures
            r == (StockSpec { width, height, thickness, material: None, origin: None }),
    {
        StockSpec { width, height, thickness, material: None, origin: None }
    }

    /// A copy of the stock.
    pub fn duplicate(&self) -> (r: StockSpec)
        ensures
            r == *self,
    {
        let material = match &self.material {
            Some(text) => Some(text.clone()),
            None => None,
        };
        StockSpec {
            width: self.width,
            height: self.height,
            thickness: self.thickness,
            material,
            origin: self.origin,
        }
    }
}

/// Counts of what a project holds.
#[derive(Clone, Debug)]
pub struct ProjectSummary {
    pub name: String,
    pub stock: StockSpec,
    pub shapes: usize,
    pub curves: usize,
    pub regions: usize,
    pub svg_imports: usize,
    pub operations: usize,
    pub toolpaths: usize,
}

/// What part of an operation a pass cuts.
#[derive(Clone, Copy, Debug, PartialEq, Eq, Structural)]
pub enum ToolpathPassKind {
    Clearance,
    Finish,
}

/// The toolpath of one tool within an operation.
#[derive(Clone, Debug)]
pub struct ToolpathPass {
    pub tool_index: usize,
    pub kind: ToolpathPassKind,
    pub toolpath: Toolpath,
}

impl ToolpathPass {
    /// The pass of a tool.
    pub fn new(tool_index: usize, kind: ToolpathPassKind, toolpath: Toolpath) -> (r: ToolpathPass)
        ensures
            r == (ToolpathPass { tool_index, kind, toolpath }),
    {
        ToolpathPass { tool_index, kind, toolpath }
    }
}

/// The generated toolpaths of an operation.
#[derive(Clone, Debug)]
pub struct ToolpathArtifact {
    pub operation_index: usize,
    pub toolpath: Toolpath,
    pub passes: Vec<ToolpathPass>,
    pub generated_at_epoch_ms: u64,
    pub warnings: Vec<String>,
    pub is_valid: bool,
}

/// Whether the toolpaths of an operation are up to date.
#[derive(Clone, Debug)]
pub enum ToolpathStatus {
    /// The operation has no toolpaths, or they are stale.
    Dirty,
    /// The operation has valid toolpaths.
    Ready { generated_at_epoch_ms: u64, warning_count: usize },
    /// The operation has toolpaths that are not valid.
    Invalid { warnings: Vec<String> },
}

/// The cache slot of an operation.
#[derive(Clone, Debug)]
pub struct OperationState {
    pub dirty: bool,
    pub artifact: Option<ToolpathArtifact>,
}

/// The slot of an operation without toolpaths.
pub open spec fn dirty_state() -> OperationState {
    OperationState { dirty: true, artifact: None }
}

/// A copy of a list of texts.
pub fn duplicate_texts(texts: &Vec<String>) -> (r: Vec<String>)
    ensures
        r@ == texts@,
{
    let mut copy: Vec<String> = Vec::new();
    let mut i: usize = 0;
    while i < texts.len()
        invariant
            0 <= i <= texts@.len(),
            copy@ == texts@.take(i as int),
        decreases texts@.len() - i,
    {
        copy.push(texts[i].clone());
        assert(copy@ =~= texts@.take(i + 1));
        i = i + 1;
    }
    assert(texts@.take(texts@.len() as int) =~= texts@);
    copy
}

/// Two statuses say the same: the same variant, with the same time and
/// count, or with the same warnings.
pub open spec fn same_status(a: ToolpathStatus, b: ToolpathStatus) -> bool {
    match (a, b) {
        (ToolpathStatus::Dirty, ToolpathStatus::Dirty) => true,
        (
            ToolpathStatus::Ready { generated_at_epoch_ms: t1, warning_count: c1 },
            ToolpathStatus::Ready { generated_at_epoch_ms: t2, warning_count: c2 },
        ) => t1 == t2 && c1 == c2,
        (ToolpathStatus::Invalid { warnings: w1 }, ToolpathStatus::Invalid { warnings: w2 }) => w1@
            == w2@,
        _ => false,
    }
}

impl OperationState {
    /// The status that the slot stands for.
    pub open spec fn status_of(self) -> ToolpathStatus {
        if self.dirty {
            ToolpathStatus::Dirty
        } else {
            match self.artifact {
                Some(artifact) => if artifact.is_valid {
                    ToolpathStatus::Ready {
                        generated_at_epoch_ms: artifact.generated_at_epoch_ms,
                        warning_count: artifact.warnings@.len() as usize,
                    }
                } else {
                    ToolpathStatus::Invalid { warnings: artifact.warnings }
                },
                None => ToolpathStatus::Dirty,
            }
        }
    }

    /// The slot of an operation without toolpaths.
    pub fn dirty() -> (r: OperationState)
        ensures
            r == dirty_state(),
    {
        OperationState { dirty: true, artifact: None }
    }

    /// Dirty if the slot is marked so or holds nothing; else ready or
    /// invalid, as the toolpaths it holds are.
    pub fn status(&self) -> (r: ToolpathStatus)
        ensures
            same_status(r, self.status_of()),
    {
        if self.dirty {
            ToolpathStatus::Dirty
        } else {
            match &self.artifact {
                Some(artifact) => {
                    if artifact.is_valid {
                        ToolpathStatus::Ready {
                            generated_at_epoch_ms: artifact.generated_at_epoch_ms,
                            warning_count: artifact.warnings.len(),
                        }
                    } else {
                        ToolpathStatus::Invalid { warnings: duplicate_texts(&artifact.warnings) }
                    }
                },
                None => ToolpathStatus::Dirty,
            }
        }
    }
}

impl Default for OperationState {
    fn default() -> (r: OperationState)
        ensures
            r == dirty_state(),
    {
        OperationState::dirty()
    }
}

/// The kind of an operation.
#[derive(Clone, Copy, Debug, PartialEq, Eq, Structural)]
pub enum OperationKind {
    Profile,
    Pocket,
    VCarve,
}

/// What a list of operations shows of one of them.
#[derive(Clone, Copy, Debug)]
pub struct OperationSummary {
    pub index: usize,
    pub kind: OperationKind,
    pub target_count: usize,
    pub primary_tool_index: usize,
    pub clearance_tool_index: Option<usize>,
}

/// The number of targets: the number of curves, or one for a region.
pub open spec fn target_count(targets: OperationTarget) -> nat {
    match targets {
        OperationTarget::Curves(curves) => curves@.len(),
        OperationTarget::Region(_) => 1,
    }
}

/// The number of targets: the number of curves, or one for a region.
pub fn count_targets(targets: &OperationTarget) -> (r: usize)
    ensures
        r == target_count(*targets),
{
    match targets {
        OperationTarget::Curves(curves) => curves.len(),
        OperationTarget::Region(_) => 1,
    }
}

impl OperationSummary {
    /// The summary of an operation at an index.
    pub open spec fn summary_of(index: usize, operation: Operation) -> OperationSummary {
        match operation {
            Operation::Profile { tool_index, targets, .. } => OperationSummary {
                index,
                kind: OperationKind::Profile,
                target_count: target_count(targets) as usize,
                primary_tool_index: tool_index,
                clearance_tool_index: None,
            },
            Operation::Pocket { tool_index, target, .. } => OperationSummary {
                index,
                kind: OperationKind::Pocket,
                target_count: target_count(target) as usize,
                primary_tool_index: tool_index,
                clearance_tool_index: None,
            },
            Operation::VCarve { tool_index, targets, clearance_tool_index, .. } => OperationSummary {
                index,
                kind: OperationKind::VCarve,
                target_count: target_count(targets) as usize,
                primary_tool_index: tool_index,
                clearance_tool_index,
            },
        }
    }

    /// The summary of an operation at an index: its kind, the number of its
    /// targets and its tools.
    pub fn from_operation(index: usize, operation: &Operation) -> (r: OperationSummary)
        ensures
            r == OperationSummary::summary_of(index, *operation),
    {
        match operation {
            Operation::Profile { target_depth: _, cut_side: _, tool_index, targets } => OperationSummary {
                index,
                kind: OperationKind::Profile,
                target_count: count_targets(targets),
                primary_tool_index: *tool_index,
                clearance_tool_index: None,
            },
            Operation::Pocket { target_depth: _, tool_index, target } => OperationSummary {
                index,
                kind: OperationKind::Pocket,
                target_count: count_targets(target),
                primary_tool_index: *tool_index,
                clearance_tool_index: None,
            },
            Operation::VCarve { target_depth: _, tool_index, targets, clearance_tool_index } => OperationSummary {
                index,
                kind: OperationKind::VCarve,
                target_count: count_targets(targets),
                primary_tool_index: *tool_index,
                clearance_tool_index: *clearance_tool_index,
            },
        }
    }
}

/// What one SVG import added to the registry, and the affine map under
/// which its curves are flattened. The curves are stored as they were read.
#[derive(Clone, Debug)]
pub struct SvgImport {
    pub id: u128,
    pub label: String,
    pub source_path: Option<String>,
    pub shape_ids: Vec<ShapeId>,
    pub curve_ids: Vec<CurveId>,
    pub region_ids: Vec<RegionId>,
    pub imported_at_epoch_ms: u64,
    pub transform: Affine,
}

impl SvgImport {
    /// The record of an import, under a fresh identifier and with the
    /// identity as its map.
    pub fn new(
        label: String,
        source_path: Option<String>,
        shape_ids: Vec<ShapeId>,
        curve_ids: Vec<CurveId>,
        region_ids: Vec<RegionId>,
        imported_at_epoch_ms: u64,
    ) -> (r: SvgImport)
        ensures
            r == (SvgImport {
                id: r.id,
                label,
                source_path,
                shape_ids,
                curve_ids,
                region_ids,
                imported_at_epoch_ms,
                transform: Affine::identity_map(),
            }),
    {
        let ulid = Ulid::new();
        SvgImport {
            id: ulid.0,
            label,
            source_path,
            shape_ids,
            curve_ids,
            region_ids,
            imported_at_epoch_ms,
            transform: Affine::identity(),
        }
    }
}

impl SvgImport {
    /// Two records say the same: equal identifiers, texts, lists, time and map.
    pub open spec fn same_record(self, other: SvgImport) -> bool {
        &&& self.id == other.id
        &&& self.label@ == other.label@
        &&& match (self.source_path, other.source_path) {
            (Some(a), Some(b)) => a@ == b@,
            (None, None) => true,
            _ => false,
        }
        &&& self.shape_ids@ == other.shape_ids@
        &&& self.curve_ids@ == other.curve_ids@
        &&& self.region_ids@ == other.region_ids@
        &&& self.imported_at_epoch_ms == other.imported_at_epoch_ms
        &&& self.transform == other.transform
    }

    /// A copy of the record.
    pub fn duplicate(&self) -> (r: SvgImport)
        ensures
            self.same_record(r),
    {
        SvgImport {
            id: self.id,
            label: self.label.clone(),
            source_path: match &self.source_path {
                Some(text) => Some(text.clone()),
                None => None,
            },
            shape_ids: copy_list(&self.shape_ids),
            curve_ids: copy_list(&self.curve_ids),
            region_ids: copy_list(&self.region_ids),
            imported_at_epoch_ms: self.imported_at_epoch_ms,
            transform: self.transform,
        }
    }
}

/// `SystemTime::now`, as milliseconds since the Unix epoch; zero for a
/// clock before the epoch. Nothing is claimed of the value.
#[verifier::external_body]
pub(crate) fn current_epoch_ms() -> (r: u64) {
    let now = std::time::SystemTime::now();
    let elapsed = now.duration_since(std::time::UNIX_EPOCH).unwrap_or_default();
    elapsed.as_millis() as u64
}

/// A project.
#[derive(Clone, Debug)]
pub struct Project {
    pub meta: ProjectMeta,
    pub stock: StockSpec,
    pub shapes: ShapeRegistry,
    pub imported_svgs: Vec<SvgImport>,
    pub operations: Vec<Operation>,
    pub operation_states: Vec<OperationState>,
    pub toolpaths: Vec<Toolpath>,
}

/// The slots after making up for missing ones: with fewer slots than
/// `count` operations, dirty slots are appended up to `count`.
pub open spec fn synced_states(states: Seq<OperationState>, count: nat) -> Seq<OperationState> {
    if states.len() < count {
        states + Seq::new((count - states.len()) as nat, |i: int| dirty_state())
    } else {
        states
    }
}

/// The slots after making sure that `index` has one, as far as there is an
/// operation for it.
pub open spec fn ensured_states(states: Seq<OperationState>, count: nat, index: nat) -> Seq<
    OperationState,
> {
    if states.len() <= index {
        synced_states(states, count)
    } else {
        states
    }
}

impl Project {
    /// Every operation has a slot.
    pub open spec fn states_cover_operations(self) -> bool {
        self.operation_states@.len() >= self.operations@.len()
    }

    /// The slots of `self` once `index` has been given one.
    pub open spec fn slots_for(self, index: usize) -> Seq<OperationState> {
        ensured_states(self.operation_states@, self.operations@.len(), index as nat)
    }

    /// A project without shapes and operations, created now.
    pub fn new(name: String, stock: StockSpec) -> (r: Project)
        ensures
            r.meta.name == name,
            r.meta.description.is_none(),
            r.meta.version == 1,
            r.meta.file_version == PROJECT_FILE_VERSION,
            r.meta.created_at_epoch_ms == r.meta.updated_at_epoch_ms,
            r.stock == stock,
            r.shapes.shapes@ == Map::<u128, crate::geometry::shape::Shape>::empty(),
            r.shapes.curves@ == Map::<u128, crate::geometry::curve::Curve>::empty(),
            r.shapes.regions@ == Map::<u128, crate::geometry::region::Region>::empty(),
            r.imported_svgs@.len() == 0,
            r.operations@.len() == 0,
            r.operation_states@.len() == 0,
            r.toolpaths@.len() == 0,
    {
        let now = current_epoch_ms();
        Project {
            meta: ProjectMeta {
                name,
                description: None,
                version: 1,
                created_at_epoch_ms: now,
                updated_at_epoch_ms: now,
                file_version: PROJECT_FILE_VERSION,
            },
            stock,
            shapes: ShapeRegistry::new(),
            imported_svgs: Vec::new(),
            operations: Vec::new(),
            operation_states: Vec::new(),
            toolpaths: Vec::new(),
        }
    }

    /// Sets the time of the last change to now: to what the clock reads,
    /// as `set_updated_timestamp` stores it. Nothing else changes.
    pub fn touch_updated_timestamp(&mut self)
        ensures
            *final(self) == (Project {
                meta: ProjectMeta {
                    updated_at_epoch_ms: final(self).meta.updated_at_epoch_ms,
                    ..old(self).meta
                },
                ..*old(self)
            }),
    {
        self.set_updated_timestamp(current_epoch_ms());
    }

    /// Sets the time of the last change, in milliseconds since the Unix
    /// epoch. Nothing else changes.
    pub fn set_updated_timestamp(&mut self, now_epoch_ms: u64)
        ensures
            *final(self) == (Project {
                meta: ProjectMeta { updated_at_epoch_ms: now_epoch_ms, ..old(self).meta },
                ..*old(self)
            }),
    {
        self.meta.updated_at_epoch_ms = now_epoch_ms;
    }

    /// The project's name and stock, and how many of each thing it holds.
    pub fn summary(&self) -> (r: ProjectSummary)
        ensures
            r.name == self.meta.name,
            r.stock == self.stock,
            r.shapes == self.shapes.shapes@.dom().len(),
            r.curves == self.shapes.curves@.dom().len(),
            r.regions == self.shapes.regions@.dom().len(),
            r.svg_imports == self.imported_svgs@.len(),
            r.operations == self.operations@.len(),
            r.toolpaths == self.toolpaths@.len(),
    {
        broadcast use vstd::std_specs::hash::group_hash_axioms;

        ProjectSummary {
            name: self.meta.name.clone(),
            stock: self.stock.duplicate(),
            shapes: self.shapes.shapes.len(),
            curves: self.shapes.curves.len(),
            regions: self.shapes.regions.len(),
            svg_imports: self.imported_svgs.len(),
            operations: self.operations.len(),
            toolpaths: self.toolpaths.len(),
        }
    }

    /// Appends dirty slots until every operation has one.
    fn ensure_operation_states_len(&mut self)
        ensures
            final(self).operation_states@ == synced_states(
                old(self).operation_states@,
                old(self).operations@.len(),
            ),
            *final(self) == (Project {
                operation_states: final(self).operation_states,
                ..*old(self)
            }),
    {
        let ghost before = self.operation_states@;
        let target: usize = self.operations.len();
        while self.operation_states.len() < target
            invariant
                target == self.operations@.len(),
                *self == (Project { operation_states: self.operation_states, ..*old(self) }),
                before.len() <= self.operation_states@.len(),
                before.len() < target ==> self.operation_states@.len() <= target,
                before.len() >= target ==> self.operation_states@.len() == before.len(),
                self.operation_states@ == before + Seq::new(
                    (self.operation_states@.len() - before.len()) as nat,
                    |i: int| dirty_state(),
                ),
            decreases target - self.operation_states@.len(),
        {
            let ghost prev = self.operation_states@;
            self.operation_states.push(OperationState::dirty());
            assert(self.operation_states@ =~= before + Seq::new(
                (prev.len() + 1 - before.len()) as nat,
                |i: int| dirty_state(),
            ));
        }
        proof {
            if before.len() >= target {
                assert(self.operation_states@ =~= before);
            }
        }
    }

    /// Makes sure that `index` has a slot, as far as there is an operation for it.
    fn ensure_operation_state(&mut self, index: usize)
        ensures
            final(self).operation_states@ == old(self).slots_for(index),
            *final(self) == (Project {
                operation_states: final(self).operation_states,
                ..*old(self)
            }),
    {
        if self.operation_states.len() <= index {
            self.ensure_operation_states_len();
        }
    }

    /// Appends an operation with a dirty slot and returns its index. Missing
    /// slots of earlier operations are made up for first.
    pub fn add_operation(&mut self, operation: Operation) -> (index: usize)
        ensures
            index == old(self).operations@.len(),
            final(self).operations@ == old(self).operations@.push(operation),
            final(self).operation_states@ == synced_states(
                old(self).operation_states@,
                old(self).operations@.len(),
            ).push(dirty_state()),
            *final(self) == (Project {
                operations: final(self).operations,
                operation_states: final(self).operation_states,
                ..*old(self)
            }),
    {
        self.ensure_operation_states_len();
        self.operations.push(operation);
        self.operation_states.push(OperationState::dirty());
        self.operations.len() - 1
    }

    /// Replaces the operation at `index` and marks it dirty, dropping its
    /// toolpaths. Fails, changing nothing, if there is no such operation.
    pub fn update_operation(&mut self, index: usize, operation: Operation) -> (r: Result<
        (),
        CamError,
    >)
        ensures
            index < old(self).operations@.len() ==> r.is_ok() && final(self).operations@ == old(
                self,
            ).operations@.update(index as int, operation) && final(self).operation_states@
                == old(self).slots_for(index).update(index as int, dirty_state()),
            index >= old(self).operations@.len() ==> r == Err::<(), CamError>(
                CamError::InvalidOperationIndex(index),
            ) && *final(self) == *old(self),
            *final(self) == (Project {
                operations: final(self).operations,
                operation_states: final(self).operation_states,
                ..*old(self)
            }),
    {
        if index >= self.operations.len() {
            return Err(CamError::InvalidOperationIndex(index));
        }
        self.operations.set(index, operation);
        self.mark_operation_dirty(index);
        Ok(())
    }

    /// Removes the operation at `index` and its slot, and returns the
    /// operation. Fails, changing nothing, if there is no such operation.
    pub fn remove_operation(&mut self, index: usize) -> (r: Result<Operation, CamError>)
        ensures
            index < old(self).operations@.len() ==> r == Ok::<Operation, CamError>(
                old(self).operations@[index as int],
            ) && final(self).operations@ == old(self).operations@.remove(index as int)
                && final(self).operation_states@ == synced_states(
                old(self).operation_states@,
                old(self).operations@.len(),
            ).remove(index as int),
            index >= old(self).operations@.len() ==> r == Err::<Operation, CamError>(
                CamError::InvalidOperationIndex(index),
            ) && *final(self) == *old(self),
            *final(self) == (Project {
                operations: final(self).operations,
                operation_states: final(self).operation_states,
                ..*old(self)
            }),
    {
        if index >= self.operations.len() {
            return Err(CamError::InvalidOperationIndex(index));
        }
        self.ensure_operation_states_len();
        self.operation_states.remove(index);
        Ok(self.operations.remove(index))
    }

    /// The summaries of the operations, in their order.
    pub fn operation_summaries(&self) -> (r: Vec<OperationSummary>)
        ensures
            r@.len() == self.operations@.len(),
            forall|i: int|
                0 <= i < r@.len() ==> r@[i] == OperationSummary::summary_of(
                    i as usize,
                    self.operations@[i],
                ),
    {
        let mut summaries: Vec<OperationSummary> = Vec::new();
        let mut i: usize = 0;
        while i < self.operations.len()
            invariant
                0 <= i <= self.operations@.len(),
                summaries@.len() == i,
                forall|j: int|
                    0 <= j < i ==> summaries@[j] == OperationSummary::summary_of(
                        j as usize,
                        self.operations@[j],
                    ),
            decreases self.operations@.len() - i,
        {
            summaries.push(OperationSummary::from_operation(i, &self.operations[i]));
            i = i + 1;
        }
        summaries
    }

    /// The summaries of the operations with the status of each: dirty for
    /// an operation without a slot.
    pub fn operations_with_status(&self) -> (r: Vec<(OperationSummary, ToolpathStatus)>)
        ensures
            r@.len() == self.operations@.len(),
            forall|i: int|
                0 <= i < r@.len() ==> (#[trigger] r@[i]).0 == OperationSummary::summary_of(
                    i as usize,
                    self.operations@[i],
                ),
            forall|i: int|
                0 <= i < r@.len() ==> same_status(
                    (#[trigger] r@[i]).1,
                    if i < self.operation_states@.len() {
                        self.operation_states@[i].status_of()
                    } else {
                        ToolpathStatus::Dirty
                    },
                ),
    {
        let mut rows: Vec<(OperationSummary, ToolpathStatus)> = Vec::new();
        let mut i: usize = 0;
        while i < self.operations.len()
            invariant
                0 <= i <= self.operations@.len(),
                rows@.len() == i,
                forall|j: int|
                    0 <= j < i ==> (#[trigger] rows@[j]).0 == OperationSummary::summary_of(
                        j as usize,
                        self.operations@[j],
                    ),
                forall|j: int|
                    0 <= j < i ==> same_status(
                        (#[trigger] rows@[j]).1,
                        if j < self.operation_states@.len() {
                            self.operation_states@[j].status_of()
                        } else {
                            ToolpathStatus::Dirty
                        },
                    ),
            decreases self.operations@.len() - i,
        {
            let summary = OperationSummary::from_operation(i, &self.operations[i]);
            let status = if i < self.operation_states.len() {
                self.operation_states[i].status()
            } else {
                ToolpathStatus::Dirty
            };
            rows.push((summary, status));
            i = i + 1;
        }
        rows
    }

    /// Marks the operation at `index` dirty and drops its toolpaths. Without
    /// such an operation or slot, nothing is marked.
    pub fn mark_operation_dirty(&mut self, index: usize)
        ensures
            final(self).operation_states@ == if index < old(self).slots_for(index).len() {
                old(self).slots_for(index).update(index as int, dirty_state())
            } else {
                old(self).slots_for(index)
            },
            *final(self) == (Project {
                operation_states: final(self).operation_states,
                ..*old(self)
            }),
    {
        self.ensure_operation_state(index);
        if index < self.operation_states.len() {
            self.operation_states.set(index, OperationState::dirty());
        }
    }

    /// Stores the toolpaths of the operation at `index` and marks it clean.
    /// Fails, storing nothing, if the index has no slot and no operation.
    pub fn attach_toolpath(&mut self, index: usize, artifact: ToolpathArtifact) -> (r: Result<
        (),
        CamError,
    >)
        ensures
            index < old(self).slots_for(index).len() ==> r.is_ok() && final(self).operation_states@
                == old(self).slots_for(index).update(
                index as int,
                (OperationState { dirty: false, artifact: Some(artifact) }),
            ),
            index >= old(self).slots_for(index).len() ==> r == Err::<(), CamError>(
                CamError::InvalidOperationIndex(index),
            ) && final(self).operation_states@ == old(self).slots_for(index),
            *final(self) == (Project {
                operation_states: final(self).operation_states,
                ..*old(self)
            }),
    {
        self.ensure_operation_state(index);
        if index < self.operation_states.len() {
            self.operation_states.set(index, OperationState { dirty: false, artifact: Some(artifact) });
            Ok(())
        } else {
            Err(CamError::InvalidOperationIndex(index))
        }
    }

    /// Drops the toolpaths of the operation at `index` and marks it dirty.
    /// Fails if the index has no slot and no operation.
    pub fn remove_toolpath_for_operation(&mut self, index: usize) -> (r: Result<(), CamError>)
        ensures
            index < old(self).slots_for(index).len() ==> r.is_ok() && final(self).operation_states@
                == old(self).slots_for(index).update(index as int, dirty_state()),
            index >= old(self).slots_for(index).len() ==> r == Err::<(), CamError>(
                CamError::InvalidOperationIndex(index),
            ) && final(self).operation_states@ == old(self).slots_for(index),
            *final(self) == (Project {
                operation_states: final(self).operation_states,
                ..*old(self)
            }),
    {
        self.ensure_operation_state(index);
        if index < self.operation_states.len() {
            self.operation_states.set(index, OperationState::dirty());
            Ok(())
        } else {
            Err(CamError::InvalidOperationIndex(index))
        }
    }

    /// The toolpaths stored for the operation at `index`.
    pub fn toolpath_for_operation(&self, index: usize) -> (r: Option<&ToolpathArtifact>)
        ensures
            match r {
                Some(artifact) => index < self.operation_states@.len()
                    && self.operation_states@[index as int].artifact == Some(*artifact),
                None => index >= self.operation_states@.len()
                    || self.operation_states@[index as int].artifact.is_none(),
            },
    {
        if index < self.operation_states.len() {
            match &self.operation_states[index].artifact {
                Some(artifact) => Some(artifact),
                None => None,
            }
        } else {
            None
        }
    }

    /// Appends dirty slots until every operation has one.
    pub fn sync_operation_states(&mut self)
        ensures
            final(self).operation_states@ == synced_states(
                old(self).operation_states@,
                old(self).operations@.len(),
            ),
            final(self).states_cover_operations(),
            *final(self) == (Project {
                operation_states: final(self).operation_states,
                ..*old(self)
            }),
    {
        self.ensure_operation_states_len();
    }

    /// Appends the record of an import.
    pub fn add_svg_import(&mut self, import: SvgImport)
        ensures
            final(self).imported_svgs@ == old(self).imported_svgs@.push(import),
            *final(self) == (Project { imported_svgs: final(self).imported_svgs, ..*old(self) }),
    {
        self.imported_svgs.push(import);
    }

    /// Builds the record of an import, under a fresh identifier and with the
    /// time now, and appends it.
    pub fn record_svg_import(
        &mut self,
        label: String,
        source_path: Option<String>,
        shape_ids: Vec<ShapeId>,
        curve_ids: Vec<CurveId>,
        region_ids: Vec<RegionId>,
    )
        ensures
            final(self).imported_svgs@.len() == old(self).imported_svgs@.len() + 1,
            final(self).imported_svgs@.drop_last() == old(self).imported_svgs@,
            final(self).imported_svgs@.last() == (SvgImport {
                id: final(self).imported_svgs@.last().id,
                label,
                source_path,
                shape_ids,
                curve_ids,
                region_ids,
                imported_at_epoch_ms: final(self).imported_svgs@.last().imported_at_epoch_ms,
                transform: Affine::identity_map(),
            }),
            *final(self) == (Project { imported_svgs: final(self).imported_svgs, ..*old(self) }),
    {
        let import = SvgImport::new(
            label,
            source_path,
            shape_ids,
            curve_ids,
            region_ids,
            current_epoch_ms(),
        );
        self.imported_svgs.push(import);
        assert(self.imported_svgs@.drop_last() =~= old(self).imported_svgs@);
    }

    /// Imports the paths of a parsed SVG document into the registry, as
    /// `ShapeRegistry::import_svg` does, and appends the record of the
    /// import under the given label: the identifiers that the import made,
    /// the document as the source, the time now, and the identity as the
    /// map. Returns a copy of the record.
    pub fn import_svg_labelled(&mut self, root: &SvgNode, document: &str, label: String) -> (r:
        SvgImport)
        ensures
            final(self).imported_svgs@.len() == old(self).imported_svgs@.len() + 1,
            final(self).imported_svgs@.drop_last() == old(self).imported_svgs@,
            final(self).imported_svgs@.last().same_record(r),
            r.label@ == label@,
            r.source_path.is_some() && r.source_path.unwrap()@ == document@,
            r.region_ids@.len() == 0,
            r.transform == Affine::identity_map(),
            final(self).shapes.regions@ == old(self).shapes.regions@,
            curves_imported(
                old(self).shapes.curves@,
                final(self).shapes.curves@,
                node_paths(*root),
                r.curve_ids@,
            ),
            shapes_imported(
                old(self).shapes.shapes@,
                final(self).shapes.shapes@,
                node_paths(*root),
                r.shape_ids@,
                r.curve_ids@,
                document@,
            ),
            *final(self) == (Project {
                shapes: final(self).shapes,
                imported_svgs: final(self).imported_svgs,
                ..*old(self)
            }),
    {
        let batch = self.shapes.import_svg(root, document);
        let import = SvgImport::new(
            label,
            Some(String::from_str(document)),
            batch.shape_ids,
            batch.curve_ids,
            batch.region_ids,
            current_epoch_ms(),
        );
        let copy = import.duplicate();
        self.imported_svgs.push(import);
        assert(self.imported_svgs@.drop_last() =~= old(self).imported_svgs@);
        copy
    }

    /// Imports the paths of a parsed SVG document, as `import_svg_labelled`
    /// does, under the file name of the document without its extension, or
    /// under `Imported SVG` if it has no file name.
    pub fn import_svg(&mut self, root: &SvgNode, document: &str) -> (r: SvgImport)
        ensures
            part_of(r.label@, document@) || r.label@ == "Imported SVG"@,
            final(self).imported_svgs@.len() == old(self).imported_svgs@.len() + 1,
            final(self).imported_svgs@.drop_last() == old(self).imported_svgs@,
            final(self).imported_svgs@.last().same_record(r),
            r.source_path.is_some() && r.source_path.unwrap()@ == document@,
            r.region_ids@.len() == 0,
            r.transform == Affine::identity_map(),
            final(self).shapes.regions@ == old(self).shapes.regions@,
            curves_imported(
                old(self).shapes.curves@,
                final(self).shapes.curves@,
                node_paths(*root),
                r.curve_ids@,
            ),
            shapes_imported(
                old(self).shapes.shapes@,
                final(self).shapes.shapes@,
                node_paths(*root),
                r.shape_ids@,
                r.curve_ids@,
                document@,
            ),
            *final(self) == (Project {
                shapes: final(self).shapes,
                imported_svgs: final(self).imported_svgs,
                ..*old(self)
            }),
    {
        let label = name_from_stem(file_stem(document), "Imported SVG");
        self.import_svg_labelled(root, document, label)
    }
}

/// The bit pattern of `100.0`, the width and height of new stock.
pub const DEFAULT_STOCK_SIDE_BITS: u64 = 0x4059_0000_0000_0000;

/// The bit pattern of `12.5`, the thickness of new stock.
pub const DEFAULT_STOCK_THICKNESS_BITS: u64 = 0x4029_0000_0000_0000;

/// Why opening, saving or importing failed.
#[derive(Clone, Debug)]
pub enum ProjectError {
    /// The user closed the dialog.
    DialogClosed,
    /// Reading or writing failed.
    Io(String),
    /// The file could not be understood.
    Parse(String),
}

/// The name of the project stored at `path`: the file name without its
/// extension, or the whole path if it has no file name. What the file name
/// of a path is goes by the platform; the name is a contiguous part of the
/// path on each, and `name_from_stem` says what it is for each answer.
pub fn infer_project_name(path: &str) -> (r: String)
    ensures
        part_of(r@, path@),
{
    proof {
        lemma_whole_is_part(path@);
    }
    name_from_stem(file_stem(path), path)
}

/// A new project of the given name, with stock of 100 by 100 by 12.5.
pub fn create_new_project(name: String) -> (r: Project)
    ensures
        r.meta.name == name,
        r.stock == (StockSpec {
            width: Scalar { bits: DEFAULT_STOCK_SIDE_BITS },
            height: Scalar { bits: DEFAULT_STOCK_SIDE_BITS },
            thickness: Scalar { bits: DEFAULT_STOCK_THICKNESS_BITS },
            material: None,
            origin: None,
        }),
        r.operations@.len() == 0,
        r.operation_states@.len() == 0,
        r.imported_svgs@.len() == 0,
        r.toolpaths@.len() == 0,
{
    let stock = StockSpec::new(
        Scalar::from_bits(DEFAULT_STOCK_SIDE_BITS),
        Scalar::from_bits(DEFAULT_STOCK_SIDE_BITS),
        Scalar::from_bits(DEFAULT_STOCK_THICKNESS_BITS),
    );
    Project::new(name, stock)
}

} // verus!
