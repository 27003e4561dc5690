//! Why an operation of the library failed.
use vstd::prelude::*;
use crate::decimal::{decimal_text, usize_to_string};
use crate::geometry::ids::{ulid_text, CurveId, RegionId};

verus! {

/// A failure of the library.
#[derive(Clone, Copy, Debug, PartialEq, Eq, Structural)]
pub enum CamError {
    /// The project has no operation at this index.
    InvalidOperationIndex(usize),
    /// The tool library has no tool at this index.
    InvalidToolIndex(usize),
    /// An operation names a tool that the library does not hold.
    ToolNotFound(usize),
    /// An operation names a region that the registry does not hold.
    RegionNotFound(RegionId),
    /// An operation or a region names a curve that the registry does not hold.
    CurveNotFound(CurveId),
    /// Flattening a curve gave no points.
    CurveEmpty(CurveId),
    /// A profile operation has no curve to follow.
    ProfileRequiresGeometry,
    /// A pocket operation has no closed curve to clear.
    PocketRequiresClosedCurve,
    /// Nothing is left of a pocket once its islands are taken out.
    PocketRegionEmpty,
    /// A V-carve operation has no polygon to carve.
    VCarveRequiresPolygon,
    /// A loop of a polygon to carve has fewer than three points.
    DegenerateLoop,
    /// A V-carve operation names a tool that is not a V-bit.
    VCarveRequiresVBit,
    /// A clearance pass was asked for at a depth that is not above zero.
    ClearanceDepthNotPositive,
    /// Offsetting the outline left nothing.
    PolygonCollapsed,
    /// The medial axis gave no path.
    NoSkeletonPaths,
}

impl CamError {
    /// The message of the failure.
    pub open spec fn message_text(self) -> Seq<char> {
        match self {
            CamError::InvalidOperationIndex(index) => "invalid operation index "@ + decimal_text(
                index as nat,
            ),
            CamError::InvalidToolIndex(index) => "invalid tool index "@ + decimal_text(
                index as nat,
            ),
            CamError::ToolNotFound(index) => "Tool #"@ + decimal_text(index as nat)
                + " not found"@,
            CamError::RegionNotFound(id) => "Region "@ + ulid_text(id.value) + " not found"@,
            CamError::CurveNotFound(id) => "Curve "@ + ulid_text(id.value) + " not found"@,
            CamError::CurveEmpty(id) => "Curve "@ + ulid_text(id.value) + " produced no points"@,
            CamError::ProfileRequiresGeometry => "Profile requires geometry"@,
            CamError::PocketRequiresClosedCurve => "Pocket requires at least one closed curve"@,
            CamError::PocketRegionEmpty => "Pocket region is empty"@,
            CamError::VCarveRequiresPolygon => "V-carve requires at least one closed polygon"@,
            CamError::DegenerateLoop => "Polygon loop must contain at least three points"@,
            CamError::VCarveRequiresVBit => "V-carve requires a V-bit tool"@,
            CamError::ClearanceDepthNotPositive => "Clearance depth must be positive"@,
            CamError::PolygonCollapsed => "No offset polygon generated - polygon may have collapsed"@,
            CamError::NoSkeletonPaths => "Straight skeleton produced no toolpaths. Ensure shapes are valid closed polygons."@,
        }
    }

    /// The message of the failure.
    pub fn message(&self) -> (r: String)
        ensures
            r@ == self.message_text(),
    {
        match self {
            CamError::InvalidOperationIndex(index) => {
                let mut s = String::from_str("invalid operation index ");
                s.append(usize_to_string(*index).as_str());
                s
            },
            CamError::InvalidToolIndex(index) => {
                let mut s = String::from_str("invalid tool index ");
                s.append(usize_to_string(*index).as_str());
                s
            },
            CamError::ToolNotFound(index) => {
                let mut s = String::from_str("Tool #");
                s.append(usize_to_string(*index).as_str());
                s.append(" not found");
                s
            },
            CamError::RegionNotFound(id) => {
                let mut s = String::from_str("Region ");
                s.append(id.to_string().as_str());
                s.append(" not found");
                s
            },
            CamError::CurveNotFound(id) => {
                let mut s = String::from_str("Curve ");
                s.append(id.to_string().as_str());
                s.append(" not found");
                s
            },
            CamError::CurveEmpty(id) => {
                let mut s = String::from_str("Curve ");
                s.append(id.to_string().as_str());
                s.append(" produced no points");
                s
            },
            CamError::ProfileRequiresGeometry => String::from_str("Profile requires geometry"),
            CamError::PocketRequiresClosedCurve => String::from_str(
                "Pocket requires at least one closed curve",
            ),
            CamError::PocketRegionEmpty => String::from_str("Pocket region is empty"),
            CamError::VCarveRequiresPolygon => String::from_str(
                "V-carve requires at least one closed polygon",
            ),
            CamError::DegenerateLoop => String::from_str(
                "Polygon loop must contain at least three points",
            ),
            CamError::VCarveRequiresVBit => String::from_str("V-carve requires a V-bit tool"),
            CamError::ClearanceDepthNotPositive => String::from_str(
                "Clearance depth must be positive",
            ),
            CamError::PolygonCollapsed => String::from_str(
                "No offset polygon generated - polygon may have collapsed",
            ),
            CamError::NoSkeletonPaths => String::from_str(
                "Straight skeleton produced no toolpaths. Ensure shapes are valid closed polygons.",
            ),
        }
    }
}

/// The message of a carving without a V-bit names the V-bit.
pub proof fn lemma_vbit_message()
    ensures
        CamError::VCarveRequiresVBit.message_text().subrange(19, 24) == "V-bit"@,
{
    reveal_strlit("V-carve requires a V-bit tool");
    reveal_strlit("V-bit");
    assert(CamError::VCarveRequiresVBit.message_text().subrange(19, 24) =~= "V-bit"@);
}

} // verus!
