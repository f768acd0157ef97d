//! Three-component vectors over fixed-point scalars.

use crate::sampling::is_unit_sample;
use crate::sampling::sample_unit;
use crate::scalar::Scalar;
use crate::scalar::UNIT;
use rand::rngs::ThreadRng;
use vstd::prelude::*;

verus! {

/// How many points of the cube `random_in_unit_sphere` tries before it
/// settles for the origin.
pub const MAX_TRIES: u32 = 64;

#[derive(Clone, Copy, Debug, PartialEq, Eq, Structural)]
pub struct Vec3 {
    pub x: Scalar,
    pub y: Scalar,
    pub z: Scalar,
}

impl Vec3 {
    pub open spec fn spec_zero() -> Vec3 {
        Vec3 { x: Scalar::spec_zero(), y: Scalar::spec_zero(), z: Scalar::spec_zero() }
    }

    pub open spec fn spec_neg(self) -> Vec3 {
        Vec3 { x: self.x.spec_neg(), y: self.y.spec_neg(), z: self.z.spec_neg() }
    }

    pub open spec fn spec_add(self, o: Vec3) -> Vec3 {
        Vec3 { x: self.x.spec_add(o.x), y: self.y.spec_add(o.y), z: self.z.spec_add(o.z) }
    }

    pub open spec fn spec_sub(self, o: Vec3) -> Vec3 {
        Vec3 { x: self.x.spec_sub(o.x), y: self.y.spec_sub(o.y), z: self.z.spec_sub(o.z) }
    }

    /// Every component multiplied by `k`.
    pub open spec fn spec_scale(self, k: Scalar) -> Vec3 {
        Vec3 { x: self.x.spec_mul(k), y: self.y.spec_mul(k), z: self.z.spec_mul(k) }
    }

    /// Every component divided by `k`.
    pub open spec fn spec_shrink(self, k: Scalar) -> Vec3 {
        Vec3 { x: self.x.spec_div(k), y: self.y.spec_div(k), z: self.z.spec_div(k) }
    }

    pub open spec fn spec_dot(self, o: Vec3) -> Scalar {
        self.x.spec_mul(o.x).spec_add(self.y.spec_mul(o.y)).spec_add(self.z.spec_mul(o.z))
    }

    pub open spec fn spec_length_squared(self) -> Scalar {
        self.spec_dot(self)
    }

    pub open spec fn spec_length(self) -> Scalar {
        self.spec_length_squared().spec_sqrt()
    }

    pub open spec fn spec_normalise(self) -> Vec3 {
        self.spec_shrink(self.spec_length())
    }

    /// Componentwise minimum.
    pub open spec fn spec_min(self, o: Vec3) -> Vec3 {
        Vec3 { x: self.x.spec_min(o.x), y: self.y.spec_min(o.y), z: self.z.spec_min(o.z) }
    }

    /// Componentwise maximum.
    pub open spec fn spec_max(self, o: Vec3) -> Vec3 {
        Vec3 { x: self.x.spec_max(o.x), y: self.y.spec_max(o.y), z: self.z.spec_max(o.z) }
    }

    /// Whether every component lies in the middle half of the scalar
    /// range, so that the sum or difference of two such vectors does not
    /// saturate.
    pub open spec fn spec_is_moderate(self) -> bool {
        &&& -0x4000_0000_0000_0000 <= self.x.raw <= 0x3fff_ffff_ffff_ffff
        &&& -0x4000_0000_0000_0000 <= self.y.raw <= 0x3fff_ffff_ffff_ffff
        &&& -0x4000_0000_0000_0000 <= self.z.raw <= 0x3fff_ffff_ffff_ffff
    }

    /// Strictly inside the unit sphere round the origin.
    pub open spec fn spec_in_unit_sphere(self) -> bool {
        self.spec_length_squared().raw < UNIT
    }

    /// The point of the cube `[-1, 1)^3` that three draws from `[0, 1)` stand for.
    pub open spec fn spec_cube_point(a: Scalar, b: Scalar, c: Scalar) -> Vec3 {
        Vec3 {
            x: a.spec_twice().spec_sub(Scalar::spec_one()),
            y: b.spec_twice().spec_sub(Scalar::spec_one()),
            z: c.spec_twice().spec_sub(Scalar::spec_one()),
        }
    }

    /// Whether the point is one that three draws from `[0, 1)` stand for.
    pub open spec fn spec_is_cube_sample(self) -> bool {
        exists|a: Scalar, b: Scalar, c: Scalar|
            is_unit_sample(a) && is_unit_sample(b) && is_unit_sample(c) && self
                == #[trigger] Vec3::spec_cube_point(a, b, c)
    }

    /// Whether rejection sampling that draws the points `tried`, in this
    /// order, ends with `p`: it draws at least one point and at most
    /// `MAX_TRIES`, every point but the last falls outside the unit sphere,
    /// and either the last one falls inside and is `p`, or all `MAX_TRIES`
    /// fell outside and `p` is the origin.
    pub open spec fn spec_rejection(tried: Seq<Vec3>, p: Vec3) -> bool {
        &&& 1 <= tried.len() <= MAX_TRIES
        &&& forall|i: int| 0 <= i < tried.len() ==> (#[trigger] tried[i]).spec_is_cube_sample()
        &&& forall|i: int| 0 <= i < tried.len() - 1 ==> !(#[trigger] tried[i]).spec_in_unit_sphere()
        &&& if tried.last().spec_in_unit_sphere() {
            p == tried.last()
        } else {
            tried.len() == MAX_TRIES && p == Vec3::spec_zero()
        }
    }

    pub fn new(x: Scalar, y: Scalar, z: Scalar) -> (r: Vec3)
        ensures
            r == (Vec3 { x, y, z }),
    {
        Vec3 { x, y, z }
    }

    pub fn zero() -> (r: Vec3)
        ensures
            r == Vec3::spec_zero(),
    {
        Vec3 { x: Scalar::zero(), y: Scalar::zero(), z: Scalar::zero() }
    }

    pub fn neg(self) -> (r: Vec3)
        ensures
            r == self.spec_neg(),
    {
        Vec3 { x: self.x.neg(), y: self.y.neg(), z: self.z.neg() }
    }

    pub fn add(self, o: Vec3) -> (r: Vec3)
        ensures
            r == self.spec_add(o),
    {
        Vec3 { x: self.x.add(o.x), y: self.y.add(o.y), z: self.z.add(o.z) }
    }

    pub fn sub(self, o: Vec3) -> (r: Vec3)
        ensures
            r == self.spec_sub(o),
    {
        Vec3 { x: self.x.sub(o.x), y: self.y.sub(o.y), z: self.z.sub(o.z) }
    }

    pub fn scale(self, k: Scalar) -> (r: Vec3)
        ensures
            r == self.spec_scale(k),
    {
        Vec3 { x: self.x.mul(k), y: self.y.mul(k), z: self.z.mul(k) }
    }

    pub fn shrink(self, k: Scalar) -> (r: Vec3)
        ensures
            r == self.spec_shrink(k),
    {
        Vec3 { x: self.x.div(k), y: self.y.div(k), z: self.z.div(k) }
    }

    pub fn dot(self, o: Vec3) -> (r: Scalar)
        ensures
            r == self.spec_dot(o),
    {
        self.x.mul(o.x).add(self.y.mul(o.y)).add(self.z.mul(o.z))
    }

    pub fn length_squared(self) -> (r: Scalar)
        ensures
            r == self.spec_length_squared(),
    {
        self.dot(self)
    }

    pub fn length(self) -> (r: Scalar)
        ensures
            r == self.spec_length(),
    {
        self.length_squared().sqrt()
    }

    /// The vector divided by its length. A vector whose length rounds to
    /// zero has no direction and is not accepted.
    pub fn normalise(self) -> (r: Vec3)
        requires
            self.spec_length().raw > 0,
        ensures
            r == self.spec_normalise(),
    {
        self.shrink(self.length())
    }

    pub fn min(self, o: Vec3) -> (r: Vec3)
        ensures
            r == self.spec_min(o),
    {
        Vec3 { x: self.x.min(o.x), y: self.y.min(o.y), z: self.z.min(o.z) }
    }

    pub fn max(self, o: Vec3) -> (r: Vec3)
        ensures
            r == self.spec_max(o),
    {
        Vec3 { x: self.x.max(o.x), y: self.y.max(o.y), z: self.z.max(o.z) }
    }

    pub fn in_unit_sphere(self) -> (b: bool)
        ensures
            b == self.spec_in_unit_sphere(),
    {
        self.length_squared().raw < UNIT
    }

    pub fn cube_point(a: Scalar, b: Scalar, c: Scalar) -> (r: Vec3)
        ensures
            r == Vec3::spec_cube_point(a, b, c),
    {
        Vec3 {
            x: a.twice().sub(Scalar::one()),
            y: b.twice().sub(Scalar::one()),
            z: c.twice().sub(Scalar::one()),
        }
    }

    /// A random point strictly inside the unit sphere, by rejection: points
    /// of the enclosing cube are drawn until one falls inside, and that one
    /// is returned. After `MAX_TRIES` rejected points the origin is
    /// returned, so the call ends whatever the generator hands out.
    pub fn random_in_unit_sphere(rng: &mut ThreadRng) -> (p: Vec3)
        ensures
            p.spec_in_unit_sphere(),
            exists|tried: Seq<Vec3>| #[trigger] Vec3::spec_rejection(tried, p),
    {
        let ghost mut tried: Seq<Vec3> = Seq::empty();
        let mut tries: u32 = 0;
        while tries < MAX_TRIES
            invariant
                tries <= MAX_TRIES,
                tried.len() == tries,
                forall|i: int| 0 <= i < tried.len() ==> (#[trigger] tried[i]).spec_is_cube_sample(),
                forall|i: int| 0 <= i < tried.len() ==> !(#[trigger] tried[i]).spec_in_unit_sphere(),
            decreases MAX_TRIES - tries,
        {
            let a: Scalar = sample_unit(rng);
            let b: Scalar = sample_unit(rng);
            let c: Scalar = sample_unit(rng);
            let p: Vec3 = Vec3::cube_point(a, b, c);
            proof {
                assert(p.spec_is_cube_sample());
                tried = tried.push(p);
            }
            if p.in_unit_sphere() {
                assert(Vec3::spec_rejection(tried, p));
                return p;
            }
            tries = tries + 1;
        }
        let origin: Vec3 = Vec3::zero();
        assert(origin.spec_length_squared().raw == 0);
        assert(Vec3::spec_rejection(tried, origin));
        origin
    }
}

/// Mirror image of `v` in the plane whose normal is `n`:
/// `v - 2 * dot(v, n) * n`.
pub open spec fn spec_reflect(v: Vec3, n: Vec3) -> Vec3 {
    v.spec_sub(n.spec_scale(v.spec_dot(n).spec_twice()))
}

/// The discriminant of Snell's law for the unit direction `uv`, the normal
/// `n` and the ratio of the two refractive indices.
pub open spec fn spec_snell_discriminant(uv: Vec3, n: Vec3, ratio: Scalar) -> Scalar {
    let dt: Scalar = uv.spec_dot(n);
    Scalar::spec_one().spec_sub(
        ratio.spec_mul(ratio).spec_mul(Scalar::spec_one().spec_sub(dt.spec_mul(dt))),
    )
}

/// The refracted direction, where Snell's law has one: where the
/// discriminant is not negative.
pub open spec fn spec_refract(uv: Vec3, n: Vec3, ratio: Scalar) -> Option<Vec3> {
    let dt: Scalar = uv.spec_dot(n);
    let disc: Scalar = spec_snell_discriminant(uv, n, ratio);
    if disc.raw >= 0 {
        Some(uv.spec_sub(n.spec_scale(dt)).spec_scale(ratio).spec_sub(n.spec_scale(disc.spec_sqrt())))
    } else {
        None
    }
}

pub fn reflect(v: Vec3, n: Vec3) -> (r: Vec3)
    ensures
        r == spec_reflect(v, n),
{
    v.sub(n.scale(v.dot(n).twice()))
}

/// Refraction of the unit direction `uv` at a surface with normal `n`;
/// `None` on total internal reflection.
pub fn refract(uv: Vec3, n: Vec3, ratio: Scalar) -> (r: Option<Vec3>)
    ensures
        r == spec_refract(uv, n, ratio),
{
    let dt: Scalar = uv.dot(n);
    let disc: Scalar = Scalar::one().sub(ratio.mul(ratio).mul(Scalar::one().sub(dt.mul(dt))));
    if disc.raw >= 0 {
        Some(uv.sub(n.scale(dt)).scale(ratio).sub(n.scale(disc.sqrt())))
    } else {
        None
    }
}

} // verus!
