//! Shapes: labelled geometry of a project.
use vstd::prelude::*;
use crate::geometry::ids::{CurveId, RegionId, ShapeId};
use crate::types::Point3;

verus! {

/// What a shape consists of.
#[derive(Clone, Debug)]
pub enum ShapeKind {
    /// One curve.
    Curve(CurveId),
    /// Several curves.
    Curves(Vec<CurveId>),
    /// A region.
    Region(RegionId),
}

/// Where a shape came from.
#[derive(Clone, Debug)]
pub enum ShapeSource {
    /// Drawn by the user.
    Manual,
    /// Read from an SVG file.
    SvgImport { path: String, layer_name: Option<String> },
    /// Set in a font.
    Font { font_name: String, text: String },
    /// Made from a primitive.
    Primitive { primitive_type: String },
}

/// A shape of the project.
#[derive(Clone, Debug)]
pub struct Shape {
    pub id: ShapeId,
    pub label: String,
    pub kind: ShapeKind,
    /// Offset of the shape's origin, if it has one.
    pub origin: Option<Point3>,
    pub source: ShapeSource,
}

} // verus!
