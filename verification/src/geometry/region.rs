//! Regions: an outer boundary with holes.
use vstd::prelude::*;
use crate::geometry::ids::{CurveId, RegionId};

verus! {

/// A filled area: what lies inside `outer` and outside every hole.
#[derive(Clone, Debug)]
pub struct Region {
    pub id: RegionId,
    /// The outer boundary, a closed curve.
    pub outer: CurveId,
    /// Closed curves inside the outer boundary that the region leaves out.
    pub holes: Vec<CurveId>,
}

/// The index of the first occurrence of `id` in `ids`, or the length of
/// `ids` if there is none.
pub open spec fn first_position(ids: Seq<CurveId>, id: CurveId) -> int
    decreases ids.len(),
{
    if ids.len() == 0 {
        0
    } else if ids[0] == id {
        0
    } else {
        1 + first_position(ids.drop_first(), id)
    }
}

/// `first_position` is in range, nothing before it is `id`, and it points at
/// `id` unless it is the length.
pub proof fn lemma_first_position(ids: Seq<CurveId>, id: CurveId)
    ensures
        0 <= first_position(ids, id) <= ids.len(),
        forall|j: int| 0 <= j < first_position(ids, id) ==> ids[j] != id,
        first_position(ids, id) < ids.len() ==> ids[first_position(ids, id)] == id,
        first_position(ids, id) == ids.len() <==> !ids.contains(id),
    decreases ids.len(),
{
    if ids.len() == 0 {
    } else if ids[0] == id {
    } else {
        let rest = ids.drop_first();
        lemma_first_position(rest, id);
        let p = first_position(rest, id);
        assert forall|j: int| 0 <= j < 1 + p implies ids[j] != id by {
            if j > 0 {
                assert(ids[j] == rest[j - 1]);
            }
        }
        if p < rest.len() {
            assert(ids[1 + p] == rest[p]);
        }
        if rest.contains(id) {
            let k = choose|k: int| 0 <= k < rest.len() && rest[k] == id;
            assert(ids[k + 1] == id);
        }
        if ids.contains(id) {
            let k = choose|k: int| 0 <= k < ids.len() && ids[k] == id;
            assert(rest[k - 1] == id);
        }
    }
}

impl Region {
    /// A region without holes, under a fresh identifier.
    pub fn new(outer: CurveId) -> (r: Region)
        ensures
            r.outer == outer,
            r.holes@ == Seq::<CurveId>::empty(),
    {
        Region { id: RegionId::new(), outer, holes: Vec::new() }
    }

    /// A region with the given holes, under a fresh identifier.
    pub fn with_holes(outer: CurveId, holes: Vec<CurveId>) -> (r: Region)
        ensures
            r.outer == outer,
            r.holes == holes,
    {
        Region { id: RegionId::new(), outer, holes }
    }

    /// Appends a hole.
    pub fn add_hole(&mut self, hole: CurveId)
        ensures
            final(self).holes@ == old(self).holes@.push(hole),
            final(self).id == old(self).id,
            final(self).outer == old(self).outer,
    {
        self.holes.push(hole);
    }

    /// Removes the first occurrence of a hole; `false` if it is not among the holes.
    pub fn remove_hole(&mut self, hole: &CurveId) -> (r: bool)
        ensures
            r == old(self).holes@.contains(*hole),
            r ==> final(self).holes@ == old(self).holes@.remove(
                first_position(old(self).holes@, *hole),
            ),
            !r ==> final(self).holes@ == old(self).holes@,
            final(self).id == old(self).id,
            final(self).outer == old(self).outer,
    {
        let n: usize = self.holes.len();
        let mut i: usize = 0;
        while i < n
            invariant
                0 <= i <= n,
                n == self.holes@.len(),
                self.holes@ == old(self).holes@,
                self.id == old(self).id,
                self.outer == old(self).outer,
                forall|j: int| 0 <= j < i ==> self.holes@[j] != *hole,
            decreases n - i,
        {
            if self.holes[i] == *hole {
                proof {
                    lemma_first_position(self.holes@, *hole);
                    let p = first_position(self.holes@, *hole);
                    assert(p == i) by {
                        if p < i {
                            assert(self.holes@[p] == *hole);
                        }
                    }
                }
                self.holes.remove(i);
                return true;
            }
            i = i + 1;
        }
        proof {
            lemma_first_position(self.holes@, *hole);
        }
        false
    }
}

} // verus!
