//! Axis-aligned bounding boxes.

use crate::vec3::Vec3;
use vstd::prelude::*;

verus! {

/// The box between the corners `min` and `max`.
#[derive(Clone, Copy, Debug, PartialEq, Eq, Structural)]
pub struct Aabb {
    pub min: Vec3,
    pub max: Vec3,
}

impl Aabb {
    /// The smallest box that encloses both: the lesser of the two `min`
    /// corners and the greater of the two `max` corners, axis by axis.
    pub open spec fn spec_merge(self, o: Aabb) -> Aabb {
        Aabb { min: self.min.spec_min(o.min), max: self.max.spec_max(o.max) }
    }

    /// Whether the point lies in the box, its faces included.
    pub open spec fn spec_contains(self, p: Vec3) -> bool {
        &&& self.min.x.raw <= p.x.raw <= self.max.x.raw
        &&& self.min.y.raw <= p.y.raw <= self.max.y.raw
        &&& self.min.z.raw <= p.z.raw <= self.max.z.raw
    }

    /// Whether all of `o` lies in the box: its `min` corner is not below
    /// this one's and its `max` corner not above, on any axis.
    pub open spec fn spec_encloses(self, o: Aabb) -> bool {
        &&& self.min.x.raw <= o.min.x.raw && o.max.x.raw <= self.max.x.raw
        &&& self.min.y.raw <= o.min.y.raw && o.max.y.raw <= self.max.y.raw
        &&& self.min.z.raw <= o.min.z.raw && o.max.z.raw <= self.max.z.raw
    }

    pub fn new(min: Vec3, max: Vec3) -> (b: Aabb)
        ensures
            b == (Aabb { min, max }),
    {
        Aabb { min, max }
    }

    pub fn merge(self, o: Aabb) -> (b: Aabb)
        ensures
            b == self.spec_merge(o),
    {
        Aabb { min: self.min.min(o.min), max: self.max.max(o.max) }
    }

    pub fn contains(&self, p: Vec3) -> (b: bool)
        ensures
            b == self.spec_contains(p),
    {
        self.min.x.raw <= p.x.raw && p.x.raw <= self.max.x.raw && self.min.y.raw <= p.y.raw
            && p.y.raw <= self.max.y.raw && self.min.z.raw <= p.z.raw && p.z.raw
            <= self.max.z.raw
    }

    /// Merging does not depend on the order of the two boxes.
    pub proof fn lemma_merge_commutative(a: Aabb, b: Aabb)
        ensures
            a.spec_merge(b) == b.spec_merge(a),
    {
    }

    /// Merging three boxes does not depend on which two are merged first.
    pub proof fn lemma_merge_associative(a: Aabb, b: Aabb, c: Aabb)
        ensures
            a.spec_merge(b).spec_merge(c) == a.spec_merge(b.spec_merge(c)),
    {
    }

    /// The merged box encloses both boxes, and every box that encloses both
    /// encloses the merged one.
    pub proof fn lemma_merge_smallest(a: Aabb, b: Aabb, c: Aabb)
        ensures
            a.spec_merge(b).spec_encloses(a),
            a.spec_merge(b).spec_encloses(b),
            c.spec_encloses(a) && c.spec_encloses(b) ==> c.spec_encloses(a.spec_merge(b)),
    {
    }
}

} // verus!
