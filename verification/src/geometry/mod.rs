//! Shapes, curves and regions, and the registry that owns them.
pub mod curve;
pub mod ids;
pub mod offset;
pub mod region;
pub mod registry;
pub mod shape;
pub mod svg;
