//! What a ray can hit: the `Hittable` capability, the record of one
//! intersection, and the list that answers for all of its members.

use crate::aabb::Aabb;
use crate::material::Material;
use crate::ray::Ray;
use crate::scalar::Scalar;
use crate::vec3::Vec3;
use vstd::prelude::*;

verus! {

/// Where and how a ray met a surface: what a material needs to know of an
/// intersection.
#[derive(Clone, Copy, Debug, PartialEq, Eq, Structural)]
pub struct SurfaceHit {
    /// Surface coordinates of the point.
    pub u: Scalar,
    pub v: Scalar,
    /// Parameter of the ray at the point.
    pub t: Scalar,
    /// The point itself.
    pub p: Vec3,
    /// Normal of the surface, turned against the ray.
    pub normal: Vec3,
    /// Whether the ray came from the outward side.
    pub front_face: bool,
}

/// One intersection of a ray with an object: where and how the ray met the
/// surface, and the material of the object.
#[derive(Clone, Copy)]
pub struct HitRecord<'a> {
    /// Surface coordinates of the point.
    pub u: Scalar,
    pub v: Scalar,
    /// Parameter of the ray at the point.
    pub t: Scalar,
    /// The point itself.
    pub p: Vec3,
    /// Normal of the surface, turned against the ray.
    pub normal: Vec3,
    /// Whether the ray came from the outward side.
    pub front_face: bool,
    /// Material of the object that was hit.
    pub material: &'a dyn Material,
}

/// Whether a ray with this direction meets the side that `outward` points
/// away from: whether the two point against each other.
pub open spec fn is_front(direction: Vec3, outward: Vec3) -> bool {
    direction.spec_dot(outward).raw < 0
}

/// The outward normal turned against a ray with this direction.
pub open spec fn turned_normal(direction: Vec3, outward: Vec3) -> Vec3 {
    if is_front(direction, outward) {
        outward
    } else {
        outward.spec_neg()
    }
}

impl SurfaceHit {
    /// The hit of a ray with this direction on a surface whose outward
    /// normal is `outward`: the side is decided here, once, and the stored
    /// normal is the outward one turned against the ray.
    pub fn facing(u: Scalar, v: Scalar, t: Scalar, p: Vec3, direction: Vec3, outward: Vec3) -> (at:
        Self)
        ensures
            at == (SurfaceHit {
                u,
                v,
                t,
                p,
                normal: turned_normal(direction, outward),
                front_face: is_front(direction, outward),
            }),
    {
        let front: bool = direction.dot(outward).raw < 0;
        let normal: Vec3 = if front {
            outward
        } else {
            outward.neg()
        };
        SurfaceHit { u, v, t, p, normal, front_face: front }
    }
}

impl<'a> HitRecord<'a> {
    /// The geometry of the hit, without the material.
    pub open spec fn spec_surface(self) -> SurfaceHit {
        SurfaceHit {
            u: self.u,
            v: self.v,
            t: self.t,
            p: self.p,
            normal: self.normal,
            front_face: self.front_face,
        }
    }

    pub fn surface(&self) -> (s: SurfaceHit)
        ensures
            s == self.spec_surface(),
    {
        SurfaceHit {
            u: self.u,
            v: self.v,
            t: self.t,
            p: self.p,
            normal: self.normal,
            front_face: self.front_face,
        }
    }

    pub fn new(
        u: Scalar,
        v: Scalar,
        t: Scalar,
        p: Vec3,
        normal: Vec3,
        front_face: bool,
        material: &'a dyn Material,
    ) -> (rec: Self)
        ensures
            rec == (HitRecord { u, v, t, p, normal, front_face, material }),
    {
        HitRecord { u, v, t, p, normal, front_face, material }
    }
}

/// The hit, if its parameter lies strictly between `t_min` and `t_max`.
pub open spec fn within<'a>(hit: Option<HitRecord<'a>>, t_min: Scalar, t_max: Scalar) -> Option<
    HitRecord<'a>,
> {
    match hit {
        Some(h) => if t_min.raw < h.t.raw && h.t.raw < t_max.raw {
            Some(h)
        } else {
            None
        },
        None => None,
    }
}

/// The hit, if its parameter lies beyond `t_min`.
pub open spec fn beyond<'a>(hit: Option<HitRecord<'a>>, t_min: Scalar) -> Option<HitRecord<'a>> {
    match hit {
        Some(h) => if t_min.raw < h.t.raw {
            Some(h)
        } else {
            None
        },
        None => None,
    }
}

/// The nearer of two hits; the first one where both are equally near.
pub open spec fn nearer<'a>(first: Option<HitRecord<'a>>, second: Option<HitRecord<'a>>) -> Option<
    HitRecord<'a>,
> {
    match (first, second) {
        (Some(a), Some(b)) => if b.t.raw < a.t.raw {
            Some(b)
        } else {
            Some(a)
        },
        (Some(a), None) => Some(a),
        (None, b) => b,
    }
}

/// Both boxes merged, where both are there.
pub open spec fn merged(first: Option<Aabb>, second: Option<Aabb>) -> Option<Aabb> {
    match (first, second) {
        (Some(a), Some(b)) => Some(a.spec_merge(b)),
        _ => None,
    }
}

/// Anything that a ray can intersect.
pub trait Hittable: Sync {
    /// The nearest intersection of the ray beyond `t_min`, however far.
    spec fn first_hit(&self, r: Ray, t_min: Scalar) -> Option<HitRecord<'_>>;

    /// The extent over the time window, or nothing for what has no bounds.
    spec fn extent(&self, t0: Scalar, t1: Scalar) -> Option<Aabb>;

    /// The nearest intersection with a parameter strictly between `t_min`
    /// and `t_max`, or nothing.
    fn hit(&self, r: &Ray, t_min: Scalar, t_max: Scalar) -> (res: Option<HitRecord<'_>>)
        requires
            t_min.raw <= t_max.raw,
        ensures
            res == within(self.first_hit(*r, t_min), t_min, t_max),
    ;

    fn bounding_box(&self, t0: Scalar, t1: Scalar) -> (res: Option<Aabb>)
        ensures
            res == self.extent(t0, t1),
    ;
}

/// A list of hittables that answers as one: with the nearest hit on any
/// member, and with the box round all of them.
pub struct HittableList {
    pub list: Vec<Box<dyn Hittable>>,
}

impl HittableList {
    /// The nearest of the first hits beyond `t_min` on the first `n`
    /// members; among equally near ones, that of the earliest member.
    pub open spec fn nearest_among(&self, r: Ray, t_min: Scalar, n: nat) -> Option<HitRecord<'_>>
        decreases n,
    {
        if n == 0 {
            None
        } else {
            nearer(
                self.nearest_among(r, t_min, (n - 1) as nat),
                beyond(self.list@[n - 1].first_hit(r, t_min), t_min),
            )
        }
    }

    /// The box round the first `n` members: nothing for no members, and
    /// nothing as soon as one member has no box.
    pub open spec fn extent_among(&self, t0: Scalar, t1: Scalar, n: nat) -> Option<Aabb>
        decreases n,
    {
        if n == 0 {
            None
        } else if n == 1 {
            self.list@[0].extent(t0, t1)
        } else {
            merged(self.extent_among(t0, t1, (n - 1) as nat), self.list@[n - 1].extent(t0, t1))
        }
    }

    pub fn new() -> (l: Self)
        ensures
            l.list@ == Seq::<Box<dyn Hittable>>::empty(),
    {
        HittableList { list: Vec::new() }
    }

    pub fn push(&mut self, item: Box<dyn Hittable>)
        ensures
            final(self).list@ == old(self).list@.push(item),
    {
        self.list.push(item);
    }

    /// The nearest hit among the first `n` members is the first hit of one
    /// of them, lies beyond `t_min`, and no first hit of theirs is nearer.
    pub proof fn lemma_nearest_among(&self, r: Ray, t_min: Scalar, n: nat)
        requires
            n <= self.list@.len(),
        ensures
            self.nearest_among(r, t_min, n) matches Some(a) ==> t_min.raw < a.t.raw && exists|
                j: int,
            |
                0 <= j < n && #[trigger] self.list@[j].first_hit(r, t_min) == Some(a),
            forall|i: int|
                0 <= i < n ==> (beyond(#[trigger] self.list@[i].first_hit(r, t_min), t_min) matches Some(
                    c,
                ) ==> self.nearest_among(r, t_min, n) matches Some(a) && a.t.raw <= c.t.raw),
        decreases n,
    {
        if n > 0 {
            self.lemma_nearest_among(r, t_min, (n - 1) as nat);
            if let Some(a) = self.nearest_among(r, t_min, n) {
                if self.list@[n - 1].first_hit(r, t_min) == Some(a) {
                } else {
                    let j = choose|j: int|
                        0 <= j < n - 1 && #[trigger] self.list@[j].first_hit(r, t_min) == Some(a);
                    assert(0 <= j < n && self.list@[j].first_hit(r, t_min) == Some(a));
                }
            }
        }
    }

    /// What the list answers to a query between `t_min` and `t_max` lies
    /// strictly between the two, and is at least as near as what any
    /// member answers to the same query.
    pub proof fn lemma_hit_is_nearest(&self, r: Ray, t_min: Scalar, t_max: Scalar, i: int)
        requires
            0 <= i < self.list@.len(),
        ensures
            within(self.first_hit(r, t_min), t_min, t_max) matches Some(a) ==> t_min.raw < a.t.raw
                < t_max.raw,
            within(self.list@[i].first_hit(r, t_min), t_min, t_max) matches Some(c) ==> within(
                self.first_hit(r, t_min),
                t_min,
                t_max,
            ) matches Some(a) && a.t.raw <= c.t.raw,
    {
        self.lemma_nearest_among(r, t_min, self.list@.len());
    }

    /// Once a member has no box, no longer prefix of the list has one.
    pub proof fn lemma_extent_lost(&self, t0: Scalar, t1: Scalar, n: nat, m: nat)
        requires
            1 <= n <= m,
            self.extent_among(t0, t1, n) is None,
        ensures
            self.extent_among(t0, t1, m) is None,
        decreases m,
    {
        if n < m {
            self.lemma_extent_lost(t0, t1, n, (m - 1) as nat);
        }
    }

    /// The list has a box exactly when it has a member and every member
    /// has one.
    pub proof fn lemma_extent_defined(&self, t0: Scalar, t1: Scalar, n: nat)
        requires
            n <= self.list@.len(),
        ensures
            self.extent_among(t0, t1, n) is Some <==> n > 0 && forall|i: int|
                0 <= i < n ==> (#[trigger] self.list@[i].extent(t0, t1)) is Some,
        decreases n,
    {
        if n > 1 {
            self.lemma_extent_defined(t0, t1, (n - 1) as nat);
        }
    }
}

impl Hittable for HittableList {
    open spec fn first_hit(&self, r: Ray, t_min: Scalar) -> Option<HitRecord<'_>> {
        self.nearest_among(r, t_min, self.list@.len())
    }

    open spec fn extent(&self, t0: Scalar, t1: Scalar) -> Option<Aabb> {
        self.extent_among(t0, t1, self.list@.len())
    }

    fn hit(&self, r: &Ray, t_min: Scalar, t_max: Scalar) -> (res: Option<HitRecord<'_>>)
        ensures
            res matches Some(a) ==> t_min.raw < a.t.raw < t_max.raw,
            forall|i: int|
                0 <= i < self.list@.len() ==> (within(
                    #[trigger] self.list@[i].first_hit(*r, t_min),
                    t_min,
                    t_max,
                ) matches Some(c) ==> res matches Some(a) && a.t.raw <= c.t.raw),
            res is Some ==> exists|j: int|
                0 <= j < self.list@.len() && within(
                    #[trigger] self.list@[j].first_hit(*r, t_min),
                    t_min,
                    t_max,
                ) == res,
    {
        proof {
            self.lemma_nearest_among(*r, t_min, self.list@.len());
        }
        let mut best: Option<HitRecord> = None;
        let mut closest: Scalar = t_max;
        let mut i: usize = 0;
        while i < self.list.len()
            invariant
                i <= self.list@.len(),
                t_min.raw <= closest.raw,
                best == within(self.nearest_among(*r, t_min, i as nat), t_min, t_max),
                closest == (match best {
                    Some(h) => h.t,
                    None => t_max,
                }),
            decreases self.list@.len() - i,
        {
            proof {
                self.lemma_nearest_among(*r, t_min, i as nat);
            }
            match self.list[i].hit(r, t_min, closest) {
                Some(h) => {
                    closest = h.t;
                    best = Some(h);
                },
                None => {},
            }
            i = i + 1;
        }
        best
    }

    fn bounding_box(&self, t0: Scalar, t1: Scalar) -> (res: Option<Aabb>)
        ensures
            res is Some <==> self.list@.len() > 0 && forall|i: int|
                0 <= i < self.list@.len() ==> (#[trigger] self.list@[i].extent(t0, t1)) is Some,
    {
        proof {
            self.lemma_extent_defined(t0, t1, self.list@.len());
        }
        if self.list.len() == 0 {
            return None;
        }
        let mut acc: Aabb = match self.list[0].bounding_box(t0, t1) {
            Some(b) => b,
            None => {
                proof {
                    self.lemma_extent_lost(t0, t1, 1, self.list@.len());
                }
                return None;
            },
        };
        let mut i: usize = 1;
        while i < self.list.len()
            invariant
                1 <= i <= self.list@.len(),
                Some(acc) == self.extent_among(t0, t1, i as nat),
            decreases self.list@.len() - i,
        {
            match self.list[i].bounding_box(t0, t1) {
                Some(b) => {
                    acc = acc.merge(b);
                },
                None => {
                    proof {
                        self.lemma_extent_lost(t0, t1, (i + 1) as nat, self.list@.len());
                    }
                    return None;
                },
            }
            i = i + 1;
        }
        Some(acc)
    }
}

} // verus!
