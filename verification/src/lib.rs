//! Toolpath generation for 2.5D routing: shapes, operations, generated
//! toolpaths and their G-code.
pub mod decimal;
pub mod error;
pub mod fixed;
pub mod forms;
pub mod geometry;
pub mod lists;
pub mod paths;
pub mod pocket;
pub mod postprocessor;
pub mod profile;
pub mod project;
pub mod scalar;
pub mod text;
pub mod tool_library;
pub mod toolpath_generation;
pub mod types;
pub mod vcarve;
pub mod workspace;

pub use error::CamError;
pub use geometry::curve::{Affine, BezPath, Circle, Curve, Line, PathEl, Point};
pub use geometry::ids::{CurveId, RegionId, ShapeId};
pub use geometry::region::Region;
pub use geometry::registry::{ImportedBatch, ShapeRegistry};
pub use geometry::shape::{Shape, ShapeKind, ShapeSource};
pub use scalar::Scalar;
pub use types::{CutSide, GCode, Operation, OperationTarget, Point2, Point3, Tool, ToolType, Toolpath};
pub use forms::{
    OperationForm, OperationKindForm, StockForm, StockNumbers, ToolForm, ToolKind, ToolNumbers,
};
pub use postprocessor::post_process_grbl;
pub use project::{
    create_new_project, infer_project_name, OperationKind, OperationState, OperationSummary, Project, ProjectMeta, ProjectSummary, StockSpec,
    ProjectError, SvgImport, ToolpathArtifact, ToolpathPass, ToolpathPassKind, ToolpathStatus,
    PROJECT_FILE_VERSION,
};
pub use tool_library::ToolLibrary;
pub use profile::generate_profile_toolpath;
pub use pocket::{generate_clearance_toolpath, generate_pocket_toolpath, PocketLayers};
pub use vcarve::{generate_vcarve_toolpath, CarveMeasurements, CarvePolygon, SkeletonVertex};
pub use toolpath_generation::{
    build_artifact, flatten_requests, generate_toolpaths_for_operations, plan_operation,
    polygons_for_operation, prepare_operation, record_generation, ClearanceJob, FlattenRequest,
    GenerationResult, GeneratorJob, ToolpathGenerationReport,
};
pub use geometry::svg::{SvgNode, SvgPath};
pub use geometry::offset::{assemble_polygons, OffsetLoop};
pub use workspace::{DragMode, SidebarTab, VCarveDebugSettings};
