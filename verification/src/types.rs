//! Tools, operations, toolpaths and G-code.
use vstd::prelude::*;
use crate::geometry::ids::{CurveId, RegionId};
use crate::scalar::{Scalar, ONE_BITS};

verus! {

/// The bit pattern of `180.0`, the upper bound of a V-bit's included angle.
pub const STRAIGHT_ANGLE_BITS: u64 = 0x4066_8000_0000_0000;

/// A point of a toolpath: x, y and z in millimetres, z negative into the material.
pub type Point3 = (Scalar, Scalar, Scalar);

/// A point of a flattened curve: x and y in millimetres.
pub type Point2 = (Scalar, Scalar);

/// The cutting geometry of a tool.
#[derive(Clone, Copy, Debug)]
pub enum ToolType {
    /// A flat-bottomed cylindrical cutter.
    Endmill { diameter: Scalar },
    /// A conical cutter, given by its included angle in degrees.
    VBit { angle_degrees: Scalar },
    /// A cylindrical cutter with a hemispherical tip.
    Ballnose { diameter: Scalar },
}

/// A tool of the catalog.
#[derive(Clone, Debug)]
pub struct Tool {
    pub name: String,
    pub diameter: Scalar,
    /// The fraction of the diameter by which adjacent rings advance.
    pub stepover: Scalar,
    /// The deepest cut of one pass.
    pub pass_depth: Scalar,
    pub tool_type: ToolType,
}

impl ToolType {
    /// A V-bit's included angle lies strictly between 0 and 180 degrees.
    pub open spec fn valid(self) -> bool {
        match self {
            ToolType::VBit { angle_degrees } => angle_degrees.positive() && angle_degrees.below(
                Scalar { bits: STRAIGHT_ANGLE_BITS },
            ),
            _ => true,
        }
    }

    /// Whether the cutting geometry is valid.
    pub fn is_valid(&self) -> (r: bool)
        ensures
            r == self.valid(),
    {
        match self {
            ToolType::VBit { angle_degrees } => angle_degrees.is_positive() && angle_degrees.lt(
                Scalar::from_bits(STRAIGHT_ANGLE_BITS),
            ),
            _ => true,
        }
    }
}

impl Tool {
    /// Stepover in `(0, 1]`, pass depth above zero, and a valid cutting geometry.
    pub open spec fn valid(self) -> bool {
        &&& self.stepover.positive()
        &&& self.stepover.at_most(Scalar { bits: ONE_BITS })
        &&& self.pass_depth.positive()
        &&& self.tool_type.valid()
    }

    /// Whether the tool is valid.
    pub fn is_valid(&self) -> (r: bool)
        ensures
            r == self.valid(),
    {
        self.stepover.is_positive() && self.stepover.le(Scalar::one())
            && self.pass_depth.is_positive() && self.tool_type.is_valid()
    }
}

/// The side of the outline on which a profile cut runs.
#[derive(Clone, Copy, Debug, PartialEq, Eq, Structural)]
pub enum CutSide {
    Inside,
    Outside,
    OnLine,
}

/// The geometry an operation works on.
#[derive(Clone, Debug)]
pub enum OperationTarget {
    /// One or more curves.
    Curves(Vec<CurveId>),
    /// A region: an outer boundary with holes.
    Region(RegionId),
}

/// A machining operation.
#[derive(Clone, Debug)]
pub enum Operation {
    /// A cut along an outline.
    Profile { target_depth: Scalar, cut_side: CutSide, tool_index: usize, targets: OperationTarget },
    /// Clearing an area.
    Pocket { target_depth: Scalar, tool_index: usize, target: OperationTarget },
    /// Variable-depth carving with a V-bit, with an optional flat bottom at
    /// `target_depth` and an optional second tool that clears it.
    VCarve {
        target_depth: Option<Scalar>,
        tool_index: usize,
        targets: OperationTarget,
        clearance_tool_index: Option<usize>,
    },
}

impl Operation {
    /// The depth of a profile or a pocket is above zero, and so is the
    /// maximal depth of a V-carve that has one.
    pub open spec fn valid(self) -> bool {
        match self {
            Operation::Profile { target_depth, .. } => target_depth.positive(),
            Operation::Pocket { target_depth, .. } => target_depth.positive(),
            Operation::VCarve { target_depth, .. } => match target_depth {
                Some(depth) => depth.positive(),
                None => true,
            },
        }
    }

    /// Whether the depths of the operation are valid.
    pub fn is_valid(&self) -> (r: bool)
        ensures
            r == self.valid(),
    {
        match self {
            Operation::Profile { target_depth, .. } => target_depth.is_positive(),
            Operation::Pocket { target_depth, .. } => target_depth.is_positive(),
            Operation::VCarve { target_depth, .. } => match target_depth {
                Some(depth) => depth.is_positive(),
                None => true,
            },
        }
    }

    /// The index of the tool that cuts the operation.
    pub open spec fn tool_of(self) -> usize {
        match self {
            Operation::Profile { tool_index, .. } => tool_index,
            Operation::Pocket { tool_index, .. } => tool_index,
            Operation::VCarve { tool_index, .. } => tool_index,
        }
    }

    /// The geometry the operation works on.
    pub open spec fn target_of(self) -> OperationTarget {
        match self {
            Operation::Profile { targets, .. } => targets,
            Operation::Pocket { target, .. } => target,
            Operation::VCarve { targets, .. } => targets,
        }
    }

    /// The index of the tool that cuts the operation.
    pub fn tool_index(&self) -> (r: usize)
        ensures
            r == self.tool_of(),
    {
        match self {
            Operation::Profile { tool_index, .. } => *tool_index,
            Operation::Pocket { tool_index, .. } => *tool_index,
            Operation::VCarve { tool_index, .. } => *tool_index,
        }
    }

    /// The geometry the operation works on.
    pub fn target(&self) -> (r: &OperationTarget)
        ensures
            *r == self.target_of(),
    {
        match self {
            Operation::Profile { targets, .. } => targets,
            Operation::Pocket { target, .. } => target,
            Operation::VCarve { targets, .. } => targets,
        }
    }
}

/// Tool motion: each inner sequence is one continuous cut.
#[derive(Clone, Debug)]
pub struct Toolpath {
    pub paths: Vec<Vec<Point3>>,
}

impl View for Toolpath {
    type V = Seq<Seq<Point3>>;

    open spec fn view(&self) -> Seq<Seq<Point3>> {
        Seq::new(self.paths@.len(), |i: int| self.paths@[i]@)
    }
}

/// Machine code: one command per line.
#[derive(Clone, Debug)]
pub struct GCode {
    pub lines: Vec<String>,
}

impl View for GCode {
    type V = Seq<Seq<char>>;

    open spec fn view(&self) -> Seq<Seq<char>> {
        Seq::new(self.lines@.len(), |i: int| self.lines@[i]@)
    }
}

} // verus!
