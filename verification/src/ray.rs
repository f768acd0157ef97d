//! Rays: a half-line through space with the time at which it was cast.

use crate::scalar::Scalar;
use crate::vec3::Vec3;
use vstd::prelude::*;

verus! {

#[derive(Clone, Copy, Debug, PartialEq, Eq, Structural)]
pub struct Ray {
    pub origin: Vec3,
    pub direction: Vec3,
    pub time: Scalar,
}

impl Ray {
    /// The point at parameter `t`: `origin + t * direction`.
    pub open spec fn spec_point_at(self, t: Scalar) -> Vec3 {
        self.origin.spec_add(self.direction.spec_scale(t))
    }

    pub fn new(origin: Vec3, direction: Vec3, time: Scalar) -> (r: Ray)
        ensures
            r == (Ray { origin, direction, time }),
    {
        Ray { origin, direction, time }
    }

    pub fn point_at(&self, t: Scalar) -> (p: Vec3)
        ensures
            p == self.spec_point_at(t),
    {
        self.origin.add(self.direction.scale(t))
    }
}

} // verus!
