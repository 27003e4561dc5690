//! The state of the workspace view that the library's callers share.
use vstd::prelude::*;

verus! {

/// What dragging an import does to it.
#[derive(Clone, Copy, Debug, PartialEq, Eq, Structural)]
pub enum DragMode {
    Translate,
    Rotate,
    Scale,
}

/// The panel that the sidebar shows.
#[derive(Clone, Copy, Debug, PartialEq, Eq, Structural)]
pub enum SidebarTab {
    Stock,
    Imports,
    Tools,
    Operations,
    View3D,
}

impl Default for SidebarTab {
    /// The sidebar opens on the stock.
    fn default() -> (r: SidebarTab)
        ensures
            r == SidebarTab::Stock,
    {
        SidebarTab::Stock
    }
}

/// Which layers of a V-carve the view draws.
#[derive(Clone, Copy, Debug, PartialEq, Eq, Structural)]
pub struct VCarveDebugSettings {
    /// The paths along the medial axis, of variable depth.
    pub show_crease_paths: bool,
    /// The flat-bottom loops at the maximal depth.
    pub show_pocket_boundary_paths: bool,
    /// Every edge of the medial axis before pruning.
    pub show_voronoi_pre_prune: bool,
    /// The edges that pruning kept.
    pub show_voronoi_post_prune: bool,
    /// The edges that pruning removed.
    pub show_pruned_edges: bool,
}

impl Default for VCarveDebugSettings {
    /// The view draws the toolpaths and none of the edges.
    fn default() -> (r: VCarveDebugSettings)
        ensures
            r == (VCarveDebugSettings {
                show_crease_paths: true,
                show_pocket_boundary_paths: true,
                show_voronoi_pre_prune: false,
                show_voronoi_post_prune: false,
                show_pruned_edges: false,
            }),
    {
        VCarveDebugSettings {
            show_crease_paths: true,
            show_pocket_boundary_paths: true,
            show_voronoi_pre_prune: false,
            show_voronoi_post_prune: false,
            show_pruned_edges: false,
        }
    }
}

} // verus!
