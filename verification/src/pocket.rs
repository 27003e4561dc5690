//! Pockets: clearing an area in rings parallel to its boundary.
//!
//! The host's polygon kernel takes the islands out of the outer boundary and
//! then deflates what is left by the stepover, again and again, until
//! nothing remains. This module says when that is, and makes the toolpath of
//! the layers that the kernel returned.
use vstd::prelude::*;
use crate::error::CamError;
use crate::lists::copy_list;
use crate::paths::{
    all_at_height, close_ring, closed_ring, lemma_closed_ring_height,
    lemma_loops_view_push, lift_path, lifted, loops_view,
};
use crate::scalar::Scalar;
use crate::types::{Point2, Point3, Toolpath};

verus! {

/// The views of a list of layers.
pub open spec fn layers_view(layers: Seq<Vec<Vec<Point2>>>) -> Seq<Seq<Seq<Point2>>> {
    Seq::new(layers.len(), |i: int| loops_view(layers[i]@))
}

/// The paths that have a vertex, in their order.
pub open spec fn nonempty_paths(paths: Seq<Seq<Point2>>) -> Seq<Seq<Point2>>
    decreases paths.len(),
{
    if paths.len() == 0 {
        Seq::empty()
    } else if paths.last().len() > 0 {
        nonempty_paths(paths.drop_last()).push(paths.last())
    } else {
        nonempty_paths(paths.drop_last())
    }
}

/// The rings of a run of deflations, outermost layer first: the paths of
/// each layer up to the first layer that is empty.
pub open spec fn rings_of_layers(layers: Seq<Seq<Seq<Point2>>>) -> Seq<Seq<Point2>>
    decreases layers.len(),
{
    if layers.len() == 0 || layers[0].len() == 0 {
        Seq::empty()
    } else {
        nonempty_paths(layers[0]) + rings_of_layers(layers.drop_first())
    }
}

/// Each ring at the height `z`, closed.
pub open spec fn ring_paths(rings: Seq<Seq<Point2>>, z: Scalar) -> Seq<Seq<Point3>> {
    Seq::new(rings.len(), |i: int| closed_ring(lifted(rings[i], z)))
}

/// The toolpath of a pocket, or why there is none.
pub open spec fn pocket_paths(
    region: Seq<Seq<Point2>>,
    layers: Seq<Seq<Seq<Point2>>>,
    target_depth: Scalar,
) -> Result<Seq<Seq<Point3>>, CamError> {
    if region.len() == 0 {
        Err(CamError::PocketRegionEmpty)
    } else {
        Ok(ring_paths(rings_of_layers(layers), target_depth.negated()))
    }
}

/// Whether a deflation left nothing, so that the clearing is complete. While
/// it is not, the kernel deflates the layer again.
pub fn layer_is_empty(layer: &Vec<Vec<Point2>>) -> (r: bool)
    ensures
        r == (layer@.len() == 0),
{
    layer.len() == 0
}

/// Appends the paths of a layer that have a vertex.
fn collect_layer(rings: &mut Vec<Vec<Point2>>, layer: &Vec<Vec<Point2>>)
    ensures
        loops_view(final(rings)@) == loops_view(old(rings)@) + nonempty_paths(loops_view(layer@)),
{
    let ghost start = loops_view(rings@);
    let mut i: usize = 0;
    assert(loops_view(layer@).take(0) =~= Seq::<Seq<Point2>>::empty());
    assert(start + nonempty_paths(Seq::<Seq<Point2>>::empty()) =~= start);
    while i < layer.len()
        invariant
            0 <= i <= layer@.len(),
            loops_view(rings@) == start + nonempty_paths(loops_view(layer@).take(i as int)),
        decreases layer@.len() - i,
    {
        let ghost done = loops_view(layer@).take(i as int);
        let ghost next = loops_view(layer@).take(i + 1);
        proof {
            assert(next.drop_last() =~= done);
            assert(next.last() == layer@[i as int]@);
        }
        if layer[i].len() > 0 {
            let ghost before = rings@;
            let copy = copy_list(&layer[i]);
            rings.push(copy);
            proof {
                lemma_loops_view_push(before, copy);
                assert(start + nonempty_paths(done).push(layer@[i as int]@) =~= (start
                    + nonempty_paths(done)).push(copy@));
            }
        }
        i = i + 1;
    }
    assert(loops_view(layer@).take(layer@.len() as int) =~= loops_view(layer@));
}

/// The toolpath of a pocket from what the kernel returned: `region` is the
/// outer boundary without the islands, and `layers` are the results of
/// deflating it by the stepover again and again, outermost first. Every path
/// of every layer up to the first empty layer becomes a ring at the depth
/// `-target_depth`, closed by repeating its first vertex where its last
/// differs. Fails with `PocketRegionEmpty` if nothing is left of the region.
pub fn generate_pocket_toolpath(
    region: &Vec<Vec<Point2>>,
    layers: &Vec<Vec<Vec<Point2>>>,
    target_depth: Scalar,
) -> (r: Result<Toolpath, CamError>)
    ensures
        match r {
            Ok(toolpath) => pocket_paths(loops_view(region@), layers_view(layers@), target_depth)
                == Ok::<Seq<Seq<Point3>>, CamError>(toolpath@),
            Err(e) => pocket_paths(loops_view(region@), layers_view(layers@), target_depth)
                == Err::<Seq<Seq<Point3>>, CamError>(e),
        },
{
    if region.len() == 0 {
        return Err(CamError::PocketRegionEmpty);
    }
    let ghost all = layers_view(layers@);
    let mut rings: Vec<Vec<Point2>> = Vec::new();
    let mut i: usize = 0;
    proof {
        assert(all.skip(0) =~= all);
        assert(loops_view(rings@) =~= Seq::<Seq<Point2>>::empty());
        assert(loops_view(rings@) + rings_of_layers(all) =~= rings_of_layers(all));
    }
    while i < layers.len()
        invariant_except_break
            0 <= i <= layers@.len(),
            all == layers_view(layers@),
            loops_view(rings@) + rings_of_layers(all.skip(i as int)) == rings_of_layers(all),
        ensures
            loops_view(rings@) == rings_of_layers(all),
        decreases layers@.len() - i,
    {
        let ghost rest = all.skip(i as int);
        proof {
            assert(rest[0] == loops_view(layers@[i as int]@));
            assert(rest.drop_first() =~= all.skip(i + 1));
        }
        if layer_is_empty(&layers[i]) {
            proof {
                assert(rings_of_layers(rest) =~= Seq::<Seq<Point2>>::empty());
                assert(loops_view(rings@) + rings_of_layers(rest) =~= loops_view(rings@));
            }
            break ;
        }
        let ghost before = loops_view(rings@);
        collect_layer(&mut rings, &layers[i]);
        proof {
            assert(loops_view(rings@) + rings_of_layers(all.skip(i + 1)) =~= before
                + rings_of_layers(rest));
        }
        i = i + 1;
    }
    proof {
        if i == layers@.len() {
            assert(all.skip(i as int) =~= Seq::<Seq<Seq<Point2>>>::empty());
            assert(loops_view(rings@) + rings_of_layers(all.skip(i as int)) =~= loops_view(
                rings@,
            ));
        }
    }
    let z = target_depth.neg();
    let mut paths: Vec<Vec<Point3>> = Vec::new();
    let mut k: usize = 0;
    while k < rings.len()
        invariant
            0 <= k <= rings@.len(),
            paths@.len() == k,
            z == target_depth.negated(),
            forall|j: int| 0 <= j < k ==> paths@[j]@ == closed_ring(lifted(rings@[j]@, z)),
        decreases rings@.len() - k,
    {
        let mut path = lift_path(&rings[k], z);
        close_ring(&mut path);
        paths.push(path);
        k = k + 1;
    }
    let toolpath = Toolpath { paths };
    assert(toolpath@ =~= ring_paths(loops_view(rings@), z));
    Ok(toolpath)
}

/// What the kernel returned for one pocket: the region, and the layers of
/// its deflations.
#[derive(Clone, Debug)]
pub struct PocketLayers {
    /// The outer boundary without the islands.
    pub region: Vec<Vec<Point2>>,
    /// The results of deflating the region by the stepover again and again,
    /// outermost first.
    pub layers: Vec<Vec<Vec<Point2>>>,
}

/// The paths of the pockets one after the other, or the failure of the
/// first pocket that has one.
pub open spec fn joined_pockets(pockets: Seq<PocketLayers>, depth: Scalar) -> Result<
    Seq<Seq<Point3>>,
    CamError,
>
    decreases pockets.len(),
{
    if pockets.len() == 0 {
        Ok(Seq::empty())
    } else {
        match joined_pockets(pockets.drop_last(), depth) {
            Err(e) => Err(e),
            Ok(paths) => match pocket_paths(
                loops_view(pockets.last().region@),
                layers_view(pockets.last().layers@),
                depth,
            ) {
                Err(e) => Err(e),
                Ok(more) => Ok(paths + more),
            },
        }
    }
}

/// The toolpath of a clearance pass, or why there is none.
pub open spec fn clearance_paths(pockets: Seq<PocketLayers>, depth: Scalar) -> Result<
    Seq<Seq<Point3>>,
    CamError,
> {
    if depth.at_most(Scalar { bits: 0 }) {
        Err(CamError::ClearanceDepthNotPositive)
    } else {
        joined_pockets(pockets, depth)
    }
}

/// A failure among the first `k` pockets is the failure of all.
proof fn lemma_first_pocket_failure(pockets: Seq<PocketLayers>, k: int, depth: Scalar)
    requires
        0 <= k <= pockets.len(),
        joined_pockets(pockets.take(k), depth).is_err(),
    ensures
        joined_pockets(pockets, depth) == joined_pockets(pockets.take(k), depth),
    decreases pockets.len() - k,
{
    if k == pockets.len() {
        assert(pockets.take(k) =~= pockets);
    } else {
        assert(pockets.take(k + 1).drop_last() =~= pockets.take(k));
        lemma_first_pocket_failure(pockets, k + 1, depth);
    }
}

/// The toolpath of the clearance pass of a V-carve: the pockets of the
/// polygons inside the limit distance, one after the other, at the depth
/// `-depth`. Fails with `ClearanceDepthNotPositive` for a depth that is zero
/// or below, and as `generate_pocket_toolpath` does for the first pocket
/// that fails.
pub fn generate_clearance_toolpath(pockets: &Vec<PocketLayers>, depth: Scalar) -> (r: Result<
    Toolpath,
    CamError,
>)
    ensures
        match r {
            Ok(toolpath) => clearance_paths(pockets@, depth) == Ok::<Seq<Seq<Point3>>, CamError>(
                toolpath@,
            ),
            Err(e) => clearance_paths(pockets@, depth) == Err::<Seq<Seq<Point3>>, CamError>(e),
        },
{
    if depth.le(Scalar::zero()) {
        return Err(CamError::ClearanceDepthNotPositive);
    }
    let mut paths: Vec<Vec<Point3>> = Vec::new();
    let mut i: usize = 0;
    proof {
        assert(pockets@.take(0) =~= Seq::<PocketLayers>::empty());
        assert(crate::paths::paths_view(paths@) =~= Seq::<Seq<Point3>>::empty());
    }
    while i < pockets.len()
        invariant
            0 <= i <= pockets@.len(),
            !depth.at_most(Scalar { bits: 0 }),
            joined_pockets(pockets@.take(i as int), depth) == Ok::<Seq<Seq<Point3>>, CamError>(
                crate::paths::paths_view(paths@),
            ),
        decreases pockets@.len() - i,
    {
        let ghost next = pockets@.take(i + 1);
        proof {
            assert(next.drop_last() =~= pockets@.take(i as int));
            assert(next.last() == pockets@[i as int]);
        }
        let pocket = &pockets[i];
        let toolpath = match generate_pocket_toolpath(&pocket.region, &pocket.layers, depth) {
            Ok(toolpath) => toolpath,
            Err(e) => {
                proof {
                    lemma_first_pocket_failure(pockets@, i + 1, depth);
                }
                return Err(e);
            },
        };
        let ghost before = crate::paths::paths_view(paths@);
        let mut k: usize = 0;
        while k < toolpath.paths.len()
            invariant
                0 <= k <= toolpath.paths@.len(),
                crate::paths::paths_view(paths@) == before + toolpath@.take(k as int),
            decreases toolpath.paths@.len() - k,
        {
            let copy = copy_list(&toolpath.paths[k]);
            proof {
                crate::paths::lemma_paths_view_push(paths@, copy);
                assert((before + toolpath@.take(k as int)).push(copy@) =~= before
                    + toolpath@.take(k + 1));
            }
            paths.push(copy);
            k = k + 1;
        }
        assert(toolpath@.take(toolpath.paths@.len() as int) =~= toolpath@);
        i = i + 1;
    }
    assert(pockets@.take(pockets@.len() as int) =~= pockets@);
    let toolpath = Toolpath { paths };
    assert(toolpath@ =~= crate::paths::paths_view(toolpath.paths@));
    Ok(toolpath)
}

/// Every point of a pocket lies at the depth `-target_depth`.
pub proof fn lemma_pocket_depth(
    region: Seq<Seq<Point2>>,
    layers: Seq<Seq<Seq<Point2>>>,
    target_depth: Scalar,
)
    requires
        pocket_paths(region, layers, target_depth).is_ok(),
    ensures
        all_at_height(pocket_paths(region, layers, target_depth)->Ok_0, target_depth.negated()),
{
    let z = target_depth.negated();
    let rings = rings_of_layers(layers);
    let paths = ring_paths(rings, z);
    assert forall|i: int, j: int| 0 <= i < paths.len() && 0 <= j < paths[i].len() implies (
    #[trigger] paths[i][j]).2 == z by {
        lemma_closed_ring_height(rings[i], z);
    }
}

/// Every ring of a pocket that has a point ends where it starts.
pub proof fn lemma_pocket_rings_closed(
    region: Seq<Seq<Point2>>,
    layers: Seq<Seq<Seq<Point2>>>,
    target_depth: Scalar,
    i: int,
)
    requires
        pocket_paths(region, layers, target_depth).is_ok(),
        0 <= i < pocket_paths(region, layers, target_depth)->Ok_0.len(),
        !target_depth.nan(),
    ensures
        ({
            let ring = pocket_paths(region, layers, target_depth)->Ok_0[i];
            ring.len() > 0 && !ring[0].0.nan() && !ring[0].1.nan() ==> crate::paths::same_point3(
                ring[0],
                ring.last(),
            )
        }),
{
}

} // verus!
