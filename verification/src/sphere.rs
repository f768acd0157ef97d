//! The sphere: the one primitive shape.

use crate::aabb::Aabb;
use crate::hittable::is_front;
use crate::hittable::turned_normal;
use crate::hittable::HitRecord;
use crate::hittable::Hittable;
use crate::hittable::SurfaceHit;
use crate::material::Material;
use crate::ray::Ray;
use crate::scalar::Scalar;
use crate::vec3::Vec3;
use vstd::prelude::*;

verus! {

/// A sphere that stands still, with the material of its surface. It has no
/// surface coordinates: `u` and `v` are zero at every hit.
pub struct Sphere {
    pub center: Vec3,
    pub radius: Scalar,
    pub material: Box<dyn Material>,
}

impl Sphere {
    /// The two parameters at which the ray crosses the sphere, the lesser
    /// first: the roots of `a t^2 + 2 b t + c` with `a = d.d`, `b = oc.d`
    /// and `c = oc.oc - radius^2`, where `d` is the ray's direction and `oc`
    /// leads from the centre to the ray's origin. Nothing where the
    /// discriminant `b^2 - a c` is not positive.
    pub open spec fn spec_roots(&self, r: Ray) -> Option<(Scalar, Scalar)> {
        let oc: Vec3 = r.origin.spec_sub(self.center);
        let a: Scalar = r.direction.spec_dot(r.direction);
        let b: Scalar = oc.spec_dot(r.direction);
        let c: Scalar = oc.spec_dot(oc).spec_sub(self.radius.spec_mul(self.radius));
        let disc: Scalar = b.spec_mul(b).spec_sub(a.spec_mul(c));
        if disc.raw > 0 {
            Some(
                (
                    b.spec_neg().spec_sub(disc.spec_sqrt()).spec_div(a),
                    b.spec_neg().spec_add(disc.spec_sqrt()).spec_div(a),
                ),
            )
        } else {
            None
        }
    }

    /// The first of the two crossings that lies beyond `t_min`.
    pub open spec fn spec_first_root(&self, r: Ray, t_min: Scalar) -> Option<Scalar> {
        match self.spec_roots(r) {
            Some((near, far)) => if t_min.raw < near.raw {
                Some(near)
            } else if t_min.raw < far.raw {
                Some(far)
            } else {
                None
            },
            None => None,
        }
    }

    /// The outward normal at a point of the surface: the way from the
    /// centre to the point, divided by the radius.
    pub open spec fn spec_outward(&self, p: Vec3) -> Vec3 {
        p.spec_sub(self.center).spec_shrink(self.radius)
    }

    /// The record of the crossing at parameter `t`.
    pub open spec fn spec_record_at(&self, r: Ray, t: Scalar) -> HitRecord<'_> {
        HitRecord {
            u: Scalar::spec_zero(),
            v: Scalar::spec_zero(),
            t,
            p: r.spec_point_at(t),
            normal: turned_normal(r.direction, self.spec_outward(r.spec_point_at(t))),
            front_face: is_front(r.direction, self.spec_outward(r.spec_point_at(t))),
            material: &*self.material,
        }
    }

    pub fn new(center: Vec3, radius: Scalar, material: Box<dyn Material>) -> (s: Self)
        ensures
            s == (Sphere { center, radius, material }),
    {
        Sphere { center, radius, material }
    }

    pub fn roots(&self, r: &Ray) -> (res: Option<(Scalar, Scalar)>)
        ensures
            res == self.spec_roots(*r),
    {
        let oc: Vec3 = r.origin.sub(self.center);
        let a: Scalar = r.direction.dot(r.direction);
        let b: Scalar = oc.dot(r.direction);
        let c: Scalar = oc.dot(oc).sub(self.radius.mul(self.radius));
        let disc: Scalar = b.mul(b).sub(a.mul(c));
        if disc.raw > 0 {
            let s: Scalar = disc.sqrt();
            Some((b.neg().sub(s).div(a), b.neg().add(s).div(a)))
        } else {
            None
        }
    }

    pub fn record_at(&self, r: &Ray, t: Scalar) -> (rec: HitRecord<'_>)
        ensures
            rec == self.spec_record_at(*r, t),
    {
        let p: Vec3 = r.point_at(t);
        let outward: Vec3 = p.sub(self.center).shrink(self.radius);
        let at: SurfaceHit = SurfaceHit::facing(
            Scalar::zero(),
            Scalar::zero(),
            t,
            p,
            r.direction,
            outward,
        );
        HitRecord {
            u: at.u,
            v: at.v,
            t: at.t,
            p: at.p,
            normal: at.normal,
            front_face: at.front_face,
            material: &*self.material,
        }
    }
}

impl Hittable for Sphere {
    open spec fn first_hit(&self, r: Ray, t_min: Scalar) -> Option<HitRecord<'_>> {
        match self.spec_first_root(r, t_min) {
            Some(t) => Some(self.spec_record_at(r, t)),
            None => None,
        }
    }

    /// The cube round the sphere, at every time.
    open spec fn extent(&self, t0: Scalar, t1: Scalar) -> Option<Aabb> {
        let reach: Vec3 = Vec3 { x: self.radius, y: self.radius, z: self.radius };
        Some(Aabb { min: self.center.spec_sub(reach), max: self.center.spec_add(reach) })
    }

    fn hit(&self, r: &Ray, t_min: Scalar, t_max: Scalar) -> (res: Option<HitRecord<'_>>) {
        match self.roots(r) {
            Some((near, far)) => {
                let t: Scalar = if t_min.raw < near.raw {
                    near
                } else if t_min.raw < far.raw {
                    far
                } else {
                    return None;
                };
                if t.raw < t_max.raw {
                    Some(self.record_at(r, t))
                } else {
                    None
                }
            },
            None => None,
        }
    }

    fn bounding_box(&self, t0: Scalar, t1: Scalar) -> (res: Option<Aabb>) {
        let reach: Vec3 = Vec3::new(self.radius, self.radius, self.radius);
        Some(Aabb::new(self.center.sub(reach), self.center.add(reach)))
    }
}

} // verus!
