//! Importing the paths of a parsed SVG document into the registry.
//!
//! The host parses the document and hands in its tree. Curves stay curves:
//! the segments of a path become the elements of one Bézier path.
use vstd::prelude::*;
use crate::decimal::{decimal_text, usize_to_string};
use crate::geometry::curve::{BezPath, Curve, PathEl};
use crate::geometry::ids::{CurveId, RegionId, ShapeId};
use crate::geometry::registry::{ImportedBatch, ShapeRegistry};
use crate::geometry::shape::{Shape, ShapeKind, ShapeSource};
use crate::lists::copy_list;

verus! {

broadcast use {vstd::std_specs::hash::group_hash_axioms, vstd::std_specs::vec::group_vec_axioms};

/// A path of an SVG document.
#[derive(Clone, Debug)]
pub struct SvgPath {
    /// The identifier of the node; empty if it has none.
    pub id: String,
    pub visible: bool,
    /// The segments of the path.
    pub elements: Vec<PathEl>,
}

/// A node of an SVG document.
#[derive(Debug)]
pub enum SvgNode {
    /// A group, with its children in document order.
    Group(Vec<SvgNode>),
    Path(SvgPath),
    /// A raster image.
    Image,
    /// Text; the parser has converted it to paths already.
    Text,
}

impl SvgPath {
    /// A path is imported if it is visible and has a segment.
    pub open spec fn importable(self) -> bool {
        self.visible && self.elements@.len() > 0
    }
}

/// The paths under a node that are imported, in document order.
pub open spec fn node_paths(node: SvgNode) -> Seq<SvgPath>
    decreases node, 0nat,
{
    match node {
        SvgNode::Group(children) => children_paths(children, children@.len()),
        SvgNode::Path(path) => if path.importable() {
            seq![path]
        } else {
            Seq::empty()
        },
        SvgNode::Image => Seq::empty(),
        SvgNode::Text => Seq::empty(),
    }
}

/// The paths under the first `k` children of a group that are imported.
pub open spec fn children_paths(children: Vec<SvgNode>, k: nat) -> Seq<SvgPath>
    decreases children, k,
{
    if k == 0 || k > children@.len() {
        Seq::empty()
    } else {
        children_paths(children, (k - 1) as nat) + node_paths(children@[k - 1])
    }
}

/// The label of the `n`-th imported path: its identifier, or `Path n` if it has none.
pub open spec fn path_label(path: SvgPath, n: nat) -> Seq<char> {
    if path.id@.len() == 0 {
        "Path "@ + decimal_text(n)
    } else {
        path.id@
    }
}

/// Appends the imported paths under a node.
fn collect_node<'a>(node: &'a SvgNode, out: &mut Vec<&'a SvgPath>)
    ensures
        final(out)@.len() == old(out)@.len() + node_paths(*node).len(),
        forall|i: int| 0 <= i < old(out)@.len() ==> final(out)@[i] == old(out)@[i],
        forall|i: int|
            0 <= i < node_paths(*node).len() ==> *final(out)@[old(out)@.len() + i] == node_paths(
                *node,
            )[i],
    decreases node, 0nat,
{
    match node {
        SvgNode::Group(children) => {
            collect_children(children, children.len(), out);
        },
        SvgNode::Path(path) => {
            if path.visible && path.elements.len() > 0 {
                out.push(path);
            }
        },
        SvgNode::Image => {},
        SvgNode::Text => {},
    }
}

/// Appends the imported paths under the first `k` children of a group.
fn collect_children<'a>(children: &'a Vec<SvgNode>, k: usize, out: &mut Vec<&'a SvgPath>)
    requires
        k <= children@.len(),
    ensures
        final(out)@.len() == old(out)@.len() + children_paths(*children, k as nat).len(),
        forall|i: int| 0 <= i < old(out)@.len() ==> final(out)@[i] == old(out)@[i],
        forall|i: int|
            0 <= i < children_paths(*children, k as nat).len() ==> *final(out)@[old(out)@.len()
                + i] == children_paths(*children, k as nat)[i],
    decreases children, k,
{
    if k > 0 {
        collect_children(children, k - 1, out);
        collect_node(&children[k - 1], out);
    }
}

/// The curve is the Bézier path of the elements.
pub open spec fn is_path_curve(curve: Curve, elements: Seq<PathEl>) -> bool {
    match curve {
        Curve::BezPath(path) => path@ == elements,
        _ => false,
    }
}

/// The shape is the one that an import makes of a path: it stands for the
/// curve of the path, has the label of the path and no origin, and names
/// the document as its source.
pub open spec fn is_import_shape(
    shape: Shape,
    id: ShapeId,
    curve: CurveId,
    label: Seq<char>,
    document: Seq<char>,
) -> bool {
    &&& shape.id == id
    &&& shape.label@ == label
    &&& shape.kind == ShapeKind::Curve(curve)
    &&& shape.origin.is_none()
    &&& match shape.source {
        ShapeSource::SvgImport { path, layer_name } => path@ == document && layer_name.is_none(),
        _ => false,
    }
}

/// The curves of a registry after an import: the curves before, and under
/// each new identifier the Bézier path of its path. Should an identifier
/// come twice, the later path has it.
pub open spec fn curves_imported(
    before: Map<u128, Curve>,
    after: Map<u128, Curve>,
    paths: Seq<SvgPath>,
    ids: Seq<CurveId>,
) -> bool {
    &&& ids.len() == paths.len()
    &&& forall|k: u128|
        after.contains_key(k) <==> before.contains_key(k) || exists|i: int|
            0 <= i < ids.len() && (#[trigger] ids[i]).value == k
    &&& forall|k: u128|
        before.contains_key(k) && !(exists|i: int|
            0 <= i < ids.len() && (#[trigger] ids[i]).value == k) ==> after[k] == before[k]
    &&& forall|i: int|
        0 <= i < ids.len() && (forall|j: int| i < j < ids.len() ==> ids[j] != ids[i])
            ==> is_path_curve(after[(#[trigger] ids[i]).value], paths[i].elements@)
}

/// The shapes of a registry after an import: the shapes before, and under
/// each new identifier the shape of its path, the `i`-th path labelled as
/// the `i+1`-th. Should an identifier come twice, the later path has it.
pub open spec fn shapes_imported(
    before: Map<u128, Shape>,
    after: Map<u128, Shape>,
    paths: Seq<SvgPath>,
    ids: Seq<ShapeId>,
    curve_ids: Seq<CurveId>,
    document: Seq<char>,
) -> bool {
    &&& ids.len() == paths.len()
    &&& curve_ids.len() == paths.len()
    &&& forall|k: u128|
        after.contains_key(k) <==> before.contains_key(k) || exists|i: int|
            0 <= i < ids.len() && (#[trigger] ids[i]).value == k
    &&& forall|k: u128|
        before.contains_key(k) && !(exists|i: int|
            0 <= i < ids.len() && (#[trigger] ids[i]).value == k) ==> after[k] == before[k]
    &&& forall|i: int|
        0 <= i < ids.len() && (forall|j: int| i < j < ids.len() ==> ids[j] != ids[i])
            ==> is_import_shape(
            after[(#[trigger] ids[i]).value],
            ids[i],
            curve_ids[i],
            path_label(paths[i], (i + 1) as nat),
            document,
        )
}

/// The label of the `n`-th imported path.
fn label_of(path: &SvgPath, n: usize) -> (r: String)
    ensures
        r@ == path_label(*path, n as nat),
{
    if path.id.as_str().is_empty() {
        let mut label = String::from_str("Path ");
        label.append(usize_to_string(n).as_str());
        label
    } else {
        path.id.clone()
    }
}

impl ShapeRegistry {
    /// Imports the paths of a parsed SVG document, in document order, and
    /// returns the identifiers that it made.
    ///
    /// Each path that is visible and has a segment becomes one Bézier path
    /// of the same elements, and one shape that stands for that curve. The
    /// shape is labelled with the identifier of the node, or `Path n` for
    /// the `n`-th imported path without one, and names `document` as its
    /// source. Groups are entered; images, text nodes, hidden paths and
    /// paths without segments are passed over.
    pub fn import_svg(&mut self, root: &SvgNode, document: &str) -> (batch: ImportedBatch)
        ensures
            batch.region_ids@.len() == 0,
            final(self).regions@ == old(self).regions@,
            curves_imported(
                old(self).curves@,
                final(self).curves@,
                node_paths(*root),
                batch.curve_ids@,
            ),
            shapes_imported(
                old(self).shapes@,
                final(self).shapes@,
                node_paths(*root),
                batch.shape_ids@,
                batch.curve_ids@,
                document@,
            ),
            old(self).consistent() ==> final(self).consistent(),
    {
        let mut found: Vec<&SvgPath> = Vec::new();
        collect_node(root, &mut found);
        let ghost paths = node_paths(*root);
        let ghost curves0 = self.curves@;
        let ghost shapes0 = self.shapes@;
        let mut curve_ids: Vec<CurveId> = Vec::new();
        let mut shape_ids: Vec<ShapeId> = Vec::new();
        let mut i: usize = 0;
        while i < found.len()
            invariant
                0 <= i <= found@.len(),
                found@.len() == paths.len(),
                forall|j: int| 0 <= j < paths.len() ==> *found@[j] == paths[j],
                self.regions@ == old(self).regions@,
                old(self).consistent() ==> self.consistent(),
                curve_ids@.len() == i,
                shape_ids@.len() == i,
                curves_imported(curves0, self.curves@, paths.take(i as int), curve_ids@),
                shapes_imported(
                    shapes0,
                    self.shapes@,
                    paths.take(i as int),
                    shape_ids@,
                    curve_ids@,
                    document@,
                ),
            decreases found@.len() - i,
        {
            let path: &SvgPath = found[i];
            let ghost curves1 = self.curves@;
            let ghost shapes1 = self.shapes@;
            let ghost cids1 = curve_ids@;
            let ghost sids1 = shape_ids@;
            let curve_id = self.create_bezpath(BezPath::from_vec(copy_list(&path.elements)));
            curve_ids.push(curve_id);
            let label = label_of(path, curve_ids.len());
            let shape_id = self.add_shape(
                Shape {
                    id: ShapeId::new(),
                    label,
                    kind: ShapeKind::Curve(curve_id),
                    origin: None,
                    source: ShapeSource::SvgImport {
                        path: String::from_str(document),
                        layer_name: None,
                    },
                },
            );
            shape_ids.push(shape_id);
            proof {
                let next = paths.take(i + 1);
                let prev = paths.take(i as int);
                assert(next[i as int] == paths[i as int]);
                assert forall|j: int| 0 <= j < i implies next[j] == prev[j] by {}
                // Curves.
                assert forall|k: u128|
                    self.curves@.contains_key(k) <==> curves0.contains_key(k) || exists|j: int|
                        0 <= j < curve_ids@.len() && (#[trigger] curve_ids@[j]).value == k by {
                    if curves1.contains_key(k) && !curves0.contains_key(k) {
                        let j = choose|j: int| 0 <= j < cids1.len() && (#[trigger] cids1[j]).value == k;
                        assert(curve_ids@[j].value == k);
                    }
                    if k == curve_id.value {
                        assert(curve_ids@[i as int].value == k);
                    }
                    if exists|j: int| 0 <= j < curve_ids@.len() && (#[trigger] curve_ids@[j]).value == k {
                        let j = choose|j: int|
                            0 <= j < curve_ids@.len() && (#[trigger] curve_ids@[j]).value == k;
                        if j < i {
                            assert(cids1[j].value == k);
                        }
                    }
                }
                assert forall|k: u128|
                    curves0.contains_key(k) && !(exists|j: int|
                        0 <= j < curve_ids@.len() && (#[trigger] curve_ids@[j]).value == k) implies self.curves@[k]
                        == curves0[k] by {
                    assert(curve_ids@[i as int].value != k);
                    assert forall|j: int| 0 <= j < cids1.len() implies (#[trigger] cids1[j]).value
                        != k by {
                        assert(curve_ids@[j].value != k);
                    }
                }
                assert forall|a: int|
                    0 <= a < curve_ids@.len() && (forall|j: int|
                        a < j < curve_ids@.len() ==> curve_ids@[j] != curve_ids@[a]) implies is_path_curve(
                    self.curves@[(#[trigger] curve_ids@[a]).value],
                    next[a].elements@,
                ) by {
                    if a < i {
                        assert(curve_ids@[i as int] != curve_ids@[a]);
                        assert forall|j: int| a < j < cids1.len() implies cids1[j] != cids1[a] by {
                            assert(curve_ids@[j] != curve_ids@[a]);
                        }
                        assert(is_path_curve(curves1[cids1[a].value], prev[a].elements@));
                    }
                }
                // Shapes.
                assert forall|k: u128|
                    self.shapes@.contains_key(k) <==> shapes0.contains_key(k) || exists|j: int|
                        0 <= j < shape_ids@.len() && (#[trigger] shape_ids@[j]).value == k by {
                    if shapes1.contains_key(k) && !shapes0.contains_key(k) {
                        let j = choose|j: int| 0 <= j < sids1.len() && (#[trigger] sids1[j]).value == k;
                        assert(shape_ids@[j].value == k);
                    }
                    if k == shape_id.value {
                        assert(shape_ids@[i as int].value == k);
                    }
                    if exists|j: int| 0 <= j < shape_ids@.len() && (#[trigger] shape_ids@[j]).value == k {
                        let j = choose|j: int|
                            0 <= j < shape_ids@.len() && (#[trigger] shape_ids@[j]).value == k;
                        if j < i {
                            assert(sids1[j].value == k);
                        }
                    }
                }
                assert forall|k: u128|
                    shapes0.contains_key(k) && !(exists|j: int|
                        0 <= j < shape_ids@.len() && (#[trigger] shape_ids@[j]).value == k) implies self.shapes@[k]
                        == shapes0[k] by {
                    assert(shape_ids@[i as int].value != k);
                    assert forall|j: int| 0 <= j < sids1.len() implies (#[trigger] sids1[j]).value
                        != k by {
                        assert(shape_ids@[j].value != k);
                    }
                }
                assert forall|a: int|
                    0 <= a < shape_ids@.len() && (forall|j: int|
                        a < j < shape_ids@.len() ==> shape_ids@[j] != shape_ids@[a]) implies is_import_shape(
                    self.shapes@[(#[trigger] shape_ids@[a]).value],
                    shape_ids@[a],
                    curve_ids@[a],
                    path_label(next[a], (a + 1) as nat),
                    document@,
                ) by {
                    if a < i {
                        assert(shape_ids@[i as int] != shape_ids@[a]);
                        assert forall|j: int| a < j < sids1.len() implies sids1[j] != sids1[a] by {
                            assert(shape_ids@[j] != shape_ids@[a]);
                        }
                        assert(is_import_shape(
                            shapes1[sids1[a].value],
                            sids1[a],
                            cids1[a],
                            path_label(prev[a], (a + 1) as nat),
                            document@,
                        ));
                    }
                }
            }
            i = i + 1;
        }
        assert(paths.take(paths.len() as int) =~= paths);
        ImportedBatch { shape_ids, curve_ids, region_ids: Vec::new() }
    }

    /// A registry of the paths of a parsed SVG document, as `import_svg`
    /// imports them into an empty registry.
    pub fn from_svg(root: &SvgNode, document: &str) -> (registry: ShapeRegistry)
        ensures
            registry.regions@ == Map::<u128, crate::geometry::region::Region>::empty(),
            registry.consistent(),
            exists|curve_ids: Seq<CurveId>, shape_ids: Seq<ShapeId>|
                curves_imported(
                    Map::<u128, Curve>::empty(),
                    registry.curves@,
                    node_paths(*root),
                    curve_ids,
                ) && #[trigger] shapes_imported(
                    Map::<u128, Shape>::empty(),
                    registry.shapes@,
                    node_paths(*root),
                    shape_ids,
                    curve_ids,
                    document@,
                ),
    {
        let mut registry = ShapeRegistry::new();
        let batch = registry.import_svg(root, document);
        assert(shapes_imported(
            Map::<u128, Shape>::empty(),
            registry.shapes@,
            node_paths(*root),
            batch.shape_ids@,
            batch.curve_ids@,
            document@,
        ));
        registry
    }
}

/// A document with one path that is imported gives an empty registry one
/// curve: the Bézier path of exactly the elements of that path.
pub proof fn lemma_single_path_import(
    after: Map<u128, Curve>,
    paths: Seq<SvgPath>,
    ids: Seq<CurveId>,
)
    requires
        paths.len() == 1,
        curves_imported(Map::<u128, Curve>::empty(), after, paths, ids),
    ensures
        after.dom() == set![ids[0].value],
        is_path_curve(after[ids[0].value], paths[0].elements@),
{
    assert forall|k: u128| after.contains_key(k) <==> k == ids[0].value by {
        if after.contains_key(k) {
            let i = choose|i: int| 0 <= i < ids.len() && (#[trigger] ids[i]).value == k;
            assert(i == 0);
        }
        if k == ids[0].value {
            assert(ids[0].value == k);
        }
    }
    assert(after.dom() =~= set![ids[0].value]);
}

} // verus!
