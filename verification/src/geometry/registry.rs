//! The registry: every curve, shape and region of a project, by identifier.
use std::collections::HashMap;
use vstd::prelude::*;
use vstd::std_specs::hash::*;
use vstd::std_specs::iter::IteratorSpec;
use crate::geometry::curve::{BezPath, Circle, Curve, Line, Point};
use crate::geometry::ids::{CurveId, RegionId, ShapeId};
use crate::geometry::region::Region;
use crate::geometry::shape::Shape;
use crate::scalar::Scalar;
use crate::types::Point2;

verus! {

broadcast use vstd::std_specs::hash::group_hash_axioms;

/// Owns the curves, shapes and regions of a project. An entity lives from
/// its insertion to its removal; removing a curve does not touch the shapes
/// and regions that name it.
#[derive(Clone, Debug)]
pub struct ShapeRegistry {
    pub shapes: HashMap<u128, Shape>,
    pub curves: HashMap<u128, Curve>,
    pub regions: HashMap<u128, Region>,
}

/// The identifiers that one import added to the registry, in the order of insertion.
#[derive(Clone, Debug)]
pub struct ImportedBatch {
    pub shape_ids: Vec<ShapeId>,
    pub curve_ids: Vec<CurveId>,
    pub region_ids: Vec<RegionId>,
}

impl ShapeRegistry {
    /// Every stored shape and region carries the identifier it is stored under.
    pub open spec fn consistent(self) -> bool {
        &&& forall|k: u128| #[trigger]
            self.shapes@.contains_key(k) ==> self.shapes@[k].id.value == k
        &&& forall|k: u128| #[trigger]
            self.regions@.contains_key(k) ==> self.regions@[k].id.value == k
    }

    /// The empty registry.
    pub fn new() -> (r: ShapeRegistry)
        ensures
            r.shapes@ == Map::<u128, Shape>::empty(),
            r.curves@ == Map::<u128, Curve>::empty(),
            r.regions@ == Map::<u128, Region>::empty(),
            r.consistent(),
    {
        ShapeRegistry { shapes: HashMap::new(), curves: HashMap::new(), regions: HashMap::new() }
    }

    /// Stores a curve under a fresh identifier and returns the identifier.
    pub fn add_curve(&mut self, curve: Curve) -> (id: CurveId)
        ensures
            final(self).curves@ == old(self).curves@.insert(id.value, curve),
            final(self).shapes@ == old(self).shapes@,
            final(self).regions@ == old(self).regions@,
    {
        let id = CurveId::new();
        self.curves.insert(id.value, curve);
        id
    }

    /// The curve stored under `id`.
    pub fn get_curve(&self, id: &CurveId) -> (r: Option<&Curve>)
        ensures
            match r {
                Some(curve) => self.curves@.contains_key(id.value) && *curve
                    == self.curves@[id.value],
                None => !self.curves@.contains_key(id.value),
            },
    {
        self.curves.get(&id.value)
    }

    /// The curve stored under `id`, for changing it in place.
    pub fn get_curve_mut(&mut self, id: &CurveId) -> (r: Option<&mut Curve>)
        ensures
            match r {
                Some(curve) => old(self).curves@.contains_key(id.value) && *curve == old(
                    self,
                ).curves@[id.value] && final(self).curves@ == old(self).curves@.insert(
                    id.value,
                    *final(curve),
                ),
                None => !old(self).curves@.contains_key(id.value) && final(self).curves@ == old(
                    self,
                ).curves@,
            },
            final(self).shapes@ == old(self).shapes@,
            final(self).regions@ == old(self).regions@,
    {
        value_mut(&mut self.curves, id.value)
    }

    /// Takes the curve stored under `id` out of the registry.
    pub fn remove_curve(&mut self, id: &CurveId) -> (r: Option<Curve>)
        ensures
            final(self).curves@ == old(self).curves@.remove(id.value),
            final(self).shapes@ == old(self).shapes@,
            final(self).regions@ == old(self).regions@,
            match r {
                Some(curve) => old(self).curves@.contains_key(id.value) && curve == old(
                    self,
                ).curves@[id.value],
                None => !old(self).curves@.contains_key(id.value),
            },
    {
        self.curves.remove(&id.value)
    }

    /// Stores a shape under a fresh identifier, which replaces the shape's
    /// own, and returns the identifier.
    pub fn add_shape(&mut self, shape: Shape) -> (id: ShapeId)
        ensures
            final(self).shapes@ == old(self).shapes@.insert(
                id.value,
                (Shape { id, ..shape }),
            ),
            final(self).curves@ == old(self).curves@,
            final(self).regions@ == old(self).regions@,
            old(self).consistent() ==> final(self).consistent(),
    {
        let id = ShapeId::new();
        let mut shape = shape;
        shape.id = id;
        self.shapes.insert(id.value, shape);
        id
    }

    /// The shape stored under `id`.
    pub fn get_shape(&self, id: &ShapeId) -> (r: Option<&Shape>)
        ensures
            match r {
                Some(shape) => self.shapes@.contains_key(id.value) && *shape
                    == self.shapes@[id.value],
                None => !self.shapes@.contains_key(id.value),
            },
    {
        self.shapes.get(&id.value)
    }

    /// The shape stored under `id`, for changing it in place.
    pub fn get_shape_mut(&mut self, id: &ShapeId) -> (r: Option<&mut Shape>)
        ensures
            match r {
                Some(shape) => old(self).shapes@.contains_key(id.value) && *shape == old(
                    self,
                ).shapes@[id.value] && final(self).shapes@ == old(self).shapes@.insert(
                    id.value,
                    *final(shape),
                ),
                None => !old(self).shapes@.contains_key(id.value) && final(self).shapes@ == old(
                    self,
                ).shapes@,
            },
            final(self).curves@ == old(self).curves@,
            final(self).regions@ == old(self).regions@,
    {
        value_mut(&mut self.shapes, id.value)
    }

    /// Takes the shape stored under `id` out of the registry.
    pub fn remove_shape(&mut self, id: &ShapeId) -> (r: Option<Shape>)
        ensures
            final(self).shapes@ == old(self).shapes@.remove(id.value),
            final(self).curves@ == old(self).curves@,
            final(self).regions@ == old(self).regions@,
            old(self).consistent() ==> final(self).consistent(),
            match r {
                Some(shape) => old(self).shapes@.contains_key(id.value) && shape == old(
                    self,
                ).shapes@[id.value],
                None => !old(self).shapes@.contains_key(id.value),
            },
    {
        self.shapes.remove(&id.value)
    }

    /// Stores a region under a fresh identifier, which replaces the region's
    /// own, and returns the identifier.
    pub fn add_region(&mut self, region: Region) -> (id: RegionId)
        ensures
            final(self).regions@ == old(self).regions@.insert(
                id.value,
                (Region { id, ..region }),
            ),
            final(self).curves@ == old(self).curves@,
            final(self).shapes@ == old(self).shapes@,
            old(self).consistent() ==> final(self).consistent(),
    {
        let id = RegionId::new();
        let mut region = region;
        region.id = id;
        self.regions.insert(id.value, region);
        id
    }

    /// The region stored under `id`.
    pub fn get_region(&self, id: &RegionId) -> (r: Option<&Region>)
        ensures
            match r {
                Some(region) => self.regions@.contains_key(id.value) && *region
                    == self.regions@[id.value],
                None => !self.regions@.contains_key(id.value),
            },
    {
        self.regions.get(&id.value)
    }

    /// The region stored under `id`, for changing it in place.
    pub fn get_region_mut(&mut self, id: &RegionId) -> (r: Option<&mut Region>)
        ensures
            match r {
                Some(region) => old(self).regions@.contains_key(id.value) && *region == old(
                    self,
                ).regions@[id.value] && final(self).regions@ == old(self).regions@.insert(
                    id.value,
                    *final(region),
                ),
                None => !old(self).regions@.contains_key(id.value) && final(self).regions@ == old(
                    self,
                ).regions@,
            },
            final(self).curves@ == old(self).curves@,
            final(self).shapes@ == old(self).shapes@,
    {
        value_mut(&mut self.regions, id.value)
    }

    /// Takes the region stored under `id` out of the registry.
    pub fn remove_region(&mut self, id: &RegionId) -> (r: Option<Region>)
        ensures
            final(self).regions@ == old(self).regions@.remove(id.value),
            final(self).curves@ == old(self).curves@,
            final(self).shapes@ == old(self).shapes@,
            old(self).consistent() ==> final(self).consistent(),
            match r {
                Some(region) => old(self).regions@.contains_key(id.value) && region == old(
                    self,
                ).regions@[id.value],
                None => !old(self).regions@.contains_key(id.value),
            },
    {
        self.regions.remove(&id.value)
    }

    /// Stores the segment from `p0` to `p1`.
    pub fn create_line(&mut self, p0: Point2, p1: Point2) -> (id: CurveId)
        ensures
            final(self).curves@ == old(self).curves@.insert(
                id.value,
                Curve::Line(
                    Line { p0: Point { x: p0.0, y: p0.1 }, p1: Point { x: p1.0, y: p1.1 } },
                ),
            ),
            final(self).shapes@ == old(self).shapes@,
            final(self).regions@ == old(self).regions@,
    {
        let line = Line::new(Point::new(p0.0, p0.1), Point::new(p1.0, p1.1));
        self.add_curve(Curve::Line(line))
    }

    /// Stores the circle about `center`.
    pub fn create_circle(&mut self, center: Point2, radius: Scalar) -> (id: CurveId)
        ensures
            final(self).curves@ == old(self).curves@.insert(
                id.value,
                Curve::Circle(Circle { center: Point { x: center.0, y: center.1 }, radius }),
            ),
            final(self).shapes@ == old(self).shapes@,
            final(self).regions@ == old(self).regions@,
    {
        let circle = Circle::new(Point::new(center.0, center.1), radius);
        self.add_curve(Curve::Circle(circle))
    }

    /// Stores a Bézier path.
    pub fn create_bezpath(&mut self, path: BezPath) -> (id: CurveId)
        ensures
            final(self).curves@ == old(self).curves@.insert(id.value, Curve::BezPath(path)),
            final(self).shapes@ == old(self).shapes@,
            final(self).regions@ == old(self).regions@,
    {
        self.add_curve(Curve::BezPath(path))
    }

    /// The identifiers of all curves, each once, in no particular order.
    pub fn all_curve_ids(&self) -> (r: Vec<CurveId>)
        ensures
            r@.len() == self.curves@.dom().len(),
            r@.no_duplicates(),
            forall|k: u128| self.curves@.contains_key(k) <==> r@.contains(CurveId { value: k }),
    {
        let keys = key_list(&self.curves);
        let mut ids: Vec<CurveId> = Vec::new();
        let mut i: usize = 0;
        while i < keys.len()
            invariant
                0 <= i <= keys@.len(),
                ids@.len() == i,
                forall|j: int| 0 <= j < i ==> ids@[j] == (CurveId { value: keys@[j] }),
            decreases keys@.len() - i,
        {
            ids.push(CurveId { value: keys[i] });
            i = i + 1;
        }
        proof {
            assert forall|k: u128| self.curves@.contains_key(k) implies ids@.contains(
                CurveId { value: k },
            ) by {
                assert(keys@.contains(k));
                let j = choose|j: int| 0 <= j < keys@.len() && keys@[j] == k;
                assert(ids@[j] == CurveId { value: k });
            }
            assert forall|k: u128| ids@.contains(CurveId { value: k }) implies self.curves@.contains_key(
                k,
            ) by {
                let j = choose|j: int| 0 <= j < ids@.len() && ids@[j] == (CurveId { value: k });
                assert(keys@[j] == k);
                assert(keys@.contains(k));
            }
        }
        ids
    }

    /// The identifiers of all shapes, each once, in no particular order.
    pub fn all_shape_ids(&self) -> (r: Vec<ShapeId>)
        ensures
            r@.len() == self.shapes@.dom().len(),
            r@.no_duplicates(),
            forall|k: u128| self.shapes@.contains_key(k) <==> r@.contains(ShapeId { value: k }),
    {
        let keys = key_list(&self.shapes);
        let mut ids: Vec<ShapeId> = Vec::new();
        let mut i: usize = 0;
        while i < keys.len()
            invariant
                0 <= i <= keys@.len(),
                ids@.len() == i,
                forall|j: int| 0 <= j < i ==> ids@[j] == (ShapeId { value: keys@[j] }),
            decreases keys@.len() - i,
        {
            ids.push(ShapeId { value: keys[i] });
            i = i + 1;
        }
        proof {
            assert forall|k: u128| self.shapes@.contains_key(k) implies ids@.contains(
                ShapeId { value: k },
            ) by {
                assert(keys@.contains(k));
                let j = choose|j: int| 0 <= j < keys@.len() && keys@[j] == k;
                assert(ids@[j] == ShapeId { value: k });
            }
            assert forall|k: u128| ids@.contains(ShapeId { value: k }) implies self.shapes@.contains_key(
                k,
            ) by {
                let j = choose|j: int| 0 <= j < ids@.len() && ids@[j] == (ShapeId { value: k });
                assert(keys@[j] == k);
                assert(keys@.contains(k));
            }
        }
        ids
    }

    /// The identifiers of all regions, each once, in no particular order.
    pub fn all_region_ids(&self) -> (r: Vec<RegionId>)
        ensures
            r@.len() == self.regions@.dom().len(),
            r@.no_duplicates(),
            forall|k: u128| self.regions@.contains_key(k) <==> r@.contains(RegionId { value: k }),
    {
        let keys = key_list(&self.regions);
        let mut ids: Vec<RegionId> = Vec::new();
        let mut i: usize = 0;
        while i < keys.len()
            invariant
                0 <= i <= keys@.len(),
                ids@.len() == i,
                forall|j: int| 0 <= j < i ==> ids@[j] == (RegionId { value: keys@[j] }),
            decreases keys@.len() - i,
        {
            ids.push(RegionId { value: keys[i] });
            i = i + 1;
        }
        proof {
            assert forall|k: u128| self.regions@.contains_key(k) implies ids@.contains(
                RegionId { value: k },
            ) by {
                assert(keys@.contains(k));
                let j = choose|j: int| 0 <= j < keys@.len() && keys@[j] == k;
                assert(ids@[j] == RegionId { value: k });
            }
            assert forall|k: u128| ids@.contains(RegionId { value: k }) implies self.regions@.contains_key(
                k,
            ) by {
                let j = choose|j: int| 0 <= j < ids@.len() && ids@[j] == (RegionId { value: k });
                assert(keys@[j] == k);
                assert(keys@.contains(k));
            }
        }
        ids
    }
}

/// `HashMap::get_mut`: a mutable reference to the value stored under the
/// key, if there is one. What is written through the reference is the
/// value under the key afterwards; no other entry changes.
#[verifier::external_body]
fn value_mut<V>(map: &mut HashMap<u128, V>, key: u128) -> (r: Option<&mut V>)
    ensures
        match r {
            Some(value) => old(map)@.contains_key(key) && *value == old(map)@[key] && final(map)@
                == old(map)@.insert(key, *final(value)),
            None => !old(map)@.contains_key(key) && final(map)@ == old(map)@,
        },
{
    map.get_mut(&key)
}

/// A duplicate-free sequence of members of a finite set, as long as the set
/// is large, holds every member.
proof fn lemma_distinct_members_cover(keys: Seq<u128>, dom: Set<u128>)
    requires
        keys.no_duplicates(),
        dom.finite(),
        keys.len() == dom.len(),
        forall|j: int| 0 <= j < keys.len() ==> dom.contains(keys[j]),
    ensures
        forall|k: u128| dom.contains(k) <==> keys.contains(k),
{
    keys.unique_seq_to_set();
    assert(keys.to_set().subset_of(dom));
    vstd::set_lib::lemma_len_subset(keys.to_set(), dom);
    vstd::set_lib::lemma_subset_equality(keys.to_set(), dom);
    assert forall|k: u128| dom.contains(k) <==> keys.contains(k) by {
        assert(keys.to_set().contains(k) <==> keys.contains(k));
    }
}

/// The keys of a map, each once, in the order in which the map hands them out.
fn key_list<V>(map: &HashMap<u128, V>) -> (r: Vec<u128>)
    ensures
        r@.len() == map@.dom().len(),
        r@.no_duplicates(),
        forall|k: u128| map@.contains_key(k) <==> r@.contains(k),
{
    let mut keys: Vec<u128> = Vec::new();
    proof {
        let all = map.keys().remaining();
        assert forall|j: int| 0 <= j < all.len() implies map@.dom().contains(
            *#[trigger] all[j],
        ) by {
            assert(all.unref()[j] == *all[j]);
            assert(all.unref().to_set().contains(*all[j]));
        }
    }
    for key in it: map.keys()
        invariant
            keys@.len() == it.index(),
            forall|j: int| 0 <= j < keys@.len() ==> keys@[j] == *it.seq()[j],
            forall|i: int, j: int| 0 <= i < j < keys@.len() ==> keys@[i] != keys@[j],
            forall|j: int| 0 <= j < keys@.len() ==> map@.dom().contains(keys@[j]),
            it.seq().no_duplicates(),
            it.seq().len() == map@.dom().len(),
            forall|j: int|
                0 <= j < it.seq().len() ==> map@.dom().contains(*#[trigger] it.seq()[j]),
    {
        keys.push(*key);
    }
    proof {
        lemma_distinct_members_cover(keys@, map@.dom());
    }
    keys
}

impl Default for ShapeRegistry {
    fn default() -> (r: ShapeRegistry)
        ensures
            r.shapes@ == Map::<u128, Shape>::empty(),
            r.curves@ == Map::<u128, Curve>::empty(),
            r.regions@ == Map::<u128, Region>::empty(),
    {
        ShapeRegistry::new()
    }
}

} // verus!
