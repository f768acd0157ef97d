//! How light leaves a surface: the four materials and the Fresnel blend.

use crate::colour::Colour;
use crate::hittable::SurfaceHit;
use crate::ray::Ray;
use crate::sampling::is_unit_sample;
use crate::sampling::sample_unit;
use crate::scalar::lemma_isqrt_unique;
use crate::scalar::Scalar;
use crate::scalar::UNIT;
use crate::texture::Texture;
use crate::vec3::reflect;
use crate::vec3::refract;
use crate::vec3::spec_reflect;
use crate::vec3::spec_refract;
use crate::vec3::spec_snell_discriminant;
use crate::vec3::Vec3;
use rand::rngs::ThreadRng;
use vstd::prelude::*;

verus! {

/// Reflectance at normal incidence of a boundary with this index of
/// refraction: `((1 - ior) / (1 + ior))^2`.
pub open spec fn spec_base_reflectance(ior: Scalar) -> Scalar {
    Scalar::spec_one().spec_sub(ior).spec_div(Scalar::spec_one().spec_add(ior)).spec_powi(2)
}

/// Schlick's approximation of the Fresnel reflectance:
/// `r0 + (1 - r0) * (1 - cos)^5`.
pub open spec fn spec_schlick(cos: Scalar, ior: Scalar) -> Scalar {
    let r0: Scalar = spec_base_reflectance(ior);
    r0.spec_add(Scalar::spec_one().spec_sub(r0).spec_mul(Scalar::spec_one().spec_sub(cos).spec_powi(5)))
}

/// The share of the light that a boundary with this index of refraction
/// reflects, for the cosine of the angle of incidence.
pub fn schlick(cos: Scalar, ior: Scalar) -> (r: Scalar)
    ensures
        r == spec_schlick(cos, ior),
{
    let r0: Scalar = Scalar::one().sub(ior).div(Scalar::one().add(ior)).powi(2);
    r0.add(Scalar::one().sub(r0).mul(Scalar::one().sub(cos).powi(5)))
}

/// One to any power is one.
pub proof fn lemma_powi_of_one(n: nat)
    ensures
        Scalar::spec_one().spec_powi(n) == Scalar::spec_one(),
    decreases n,
{
    if n > 0 {
        lemma_powi_of_one((n - 1) as nat);
    }
}

/// The reflectance at normal incidence is a square, so it is not negative.
pub proof fn lemma_base_reflectance_not_negative(ior: Scalar)
    ensures
        spec_base_reflectance(ior).raw >= 0,
{
    let q: Scalar = Scalar::spec_one().spec_sub(ior).spec_div(Scalar::spec_one().spec_add(ior));
    assert(q.spec_powi(0) == Scalar::spec_one());
    assert(q.spec_powi(1) == q) by {
        assert(q.spec_powi(1) == q.spec_powi(0).spec_mul(q));
        assert((UNIT as int * q.raw as int) / (UNIT as int) == q.raw as int);
    }
    assert(q.spec_powi(2) == q.spec_mul(q)) by {
        assert(q.spec_powi(2) == q.spec_powi(1).spec_mul(q));
    }
    assert((q.raw as int * q.raw as int) / (UNIT as int) >= 0) by (nonlinear_arith)
        requires
            UNIT == 65536,
    ;
}

/// For a ray that meets the surface head-on (`cos == 1`), Schlick's
/// reflectance is the reflectance at normal incidence.
pub proof fn lemma_schlick_head_on(ior: Scalar)
    ensures
        spec_schlick(Scalar::spec_one(), ior) == spec_base_reflectance(ior),
{
    let zero: Scalar = Scalar::spec_one().spec_sub(Scalar::spec_one());
    assert(zero.raw == 0);
    assert(zero.spec_powi(5) == zero.spec_powi(4).spec_mul(zero));
    assert(zero.spec_powi(5).raw == 0);
}

/// For a ray that grazes the surface (`cos == 0`), Schlick's reflectance
/// is one: everything is reflected.
pub proof fn lemma_schlick_grazing(ior: Scalar)
    ensures
        spec_schlick(Scalar::spec_zero(), ior) == Scalar::spec_one(),
{
    let r0: Scalar = spec_base_reflectance(ior);
    lemma_base_reflectance_not_negative(ior);
    lemma_powi_of_one(5);
    assert(Scalar::spec_one().spec_sub(Scalar::spec_zero()) == Scalar::spec_one());
    let rest: Scalar = Scalar::spec_one().spec_sub(r0);
    assert(rest.raw == UNIT - r0.raw);
    assert((rest.raw as int * UNIT as int) / (UNIT as int) == rest.raw as int);
    assert(rest.spec_mul(Scalar::spec_one()) == rest);
}

/// Where the medium has the refractive index of its surroundings
/// (`ior == 1`), nothing is reflected at normal incidence.
pub proof fn lemma_matched_index_reflects_nothing()
    ensures
        spec_base_reflectance(Scalar::spec_one()) == Scalar::spec_zero(),
        spec_schlick(Scalar::spec_one(), Scalar::spec_one()) == Scalar::spec_zero(),
{
    let one: Scalar = Scalar::spec_one();
    let q: Scalar = one.spec_sub(one).spec_div(one.spec_add(one));
    assert(q.raw == 0);
    assert(q.spec_powi(2) == q.spec_powi(1).spec_mul(q));
    assert(q.spec_powi(2).raw == 0);
    lemma_schlick_head_on(one);
}

/// What a surface does with light.
pub trait Material: Sync {
    /// What becomes of a ray that hits the surface, given the random point
    /// `jitter` of the unit sphere and the random number `draw` of `[0, 1)`
    /// that the material may consult: the ray that leaves with the colour
    /// that it is weighted by, or nothing where the light ends.
    spec fn scatter_outcome(&self, rec: SurfaceHit, ray: Ray, jitter: Vec3, draw: Scalar) -> Option<
        (Ray, Colour),
    >;

    /// The light that the surface gives off by itself at `(u, v, p)`.
    spec fn emission(&self, u: Scalar, v: Scalar, p: Vec3) -> Colour;

    /// `scatter` with the random values handed in.
    fn scatter_with(&self, rec: &SurfaceHit, ray: &Ray, jitter: Vec3, draw: Scalar) -> (res: Option<
        (Ray, Colour),
    >)
        requires
            ray.direction.spec_length().raw > 0,
        ensures
            res == self.scatter_outcome(*rec, *ray, jitter, draw),
    ;

    /// Scatters the ray, drawing what randomness the material needs from
    /// `rng`.
    fn scatter(&self, rec: &SurfaceHit, ray: &Ray, rng: &mut ThreadRng) -> (res: Option<
        (Ray, Colour),
    >)
        requires
            ray.direction.spec_length().raw > 0,
        ensures
            exists|jitter: Vec3, draw: Scalar|
                jitter.spec_in_unit_sphere() && is_unit_sample(draw) && res == self.scatter_outcome(
                    *rec,
                    *ray,
                    jitter,
                    draw,
                ),
    ;

    fn emitted(&self, u: Scalar, v: Scalar, p: Vec3, rng: &mut ThreadRng) -> (c: Colour)
        ensures
            c == self.emission(u, v, p),
    ;
}

/// A diffuse surface: light leaves in a random direction round the normal,
/// weighted by the texture's colour at the point.
#[derive(Debug, Clone, Copy)]
pub struct Lambertian<T: Texture> {
    pub albedo: T,
}

impl<T: Texture> Lambertian<T> {
    pub fn new(albedo: T) -> (m: Self)
        ensures
            m.albedo == albedo,
    {
        Self { albedo }
    }
}

impl<T: Texture> Material for Lambertian<T> {
    open spec fn scatter_outcome(&self, rec: SurfaceHit, ray: Ray, jitter: Vec3, draw: Scalar) -> Option<
        (Ray, Colour),
    > {
        Some(
            (
                Ray { origin: rec.p, direction: rec.normal.spec_add(jitter), time: ray.time },
                self.albedo.colour_at(rec.u, rec.v, rec.p),
            ),
        )
    }

    open spec fn emission(&self, u: Scalar, v: Scalar, p: Vec3) -> Colour {
        Colour::spec_black()
    }

    fn scatter_with(&self, rec: &SurfaceHit, ray: &Ray, jitter: Vec3, draw: Scalar) -> (res: Option<
        (Ray, Colour),
    >) {
        let scattered: Ray = Ray::new(rec.p, rec.normal.add(jitter), ray.time);
        let attenuation: Colour = self.albedo.value(rec.u, rec.v, rec.p);
        Some((scattered, attenuation))
    }

    /// Always scatters, and always with the texture's colour at the hit,
    /// whichever direction is drawn.
    fn scatter(&self, rec: &SurfaceHit, ray: &Ray, rng: &mut ThreadRng) -> (res: Option<
        (Ray, Colour),
    >)
        ensures
            res matches Some((out, colour)) && colour == self.albedo.colour_at(rec.u, rec.v, rec.p)
                && out.origin == rec.p && out.time == ray.time,
    {
        let jitter: Vec3 = Vec3::random_in_unit_sphere(rng);
        let res = self.scatter_with(rec, ray, jitter, Scalar::zero());
        assert(is_unit_sample(Scalar::spec_zero()));
        res
    }

    fn emitted(&self, u: Scalar, v: Scalar, p: Vec3, rng: &mut ThreadRng) -> (c: Colour)
        ensures
            c == Colour::spec_black(),
    {
        Colour::black()
    }
}

/// A mirror with a colour; `fuzz` blurs the reflection.
#[derive(Debug, Clone, Copy)]
pub struct Metal {
    pub albedo: Colour,
    pub fuzz: Scalar,
}

impl Metal {
    pub fn new(albedo: Colour, fuzz: Scalar) -> (m: Self)
        ensures
            m.albedo == albedo,
            m.fuzz == fuzz,
    {
        Self { albedo, fuzz }
    }

    /// The direction in which the ray leaves: its unit direction mirrored
    /// at the surface, moved by `fuzz` times the jitter.
    pub open spec fn spec_outgoing(&self, rec: SurfaceHit, ray: Ray, jitter: Vec3) -> Vec3 {
        spec_reflect(ray.direction.spec_normalise(), rec.normal).spec_add(
            jitter.spec_scale(self.fuzz),
        )
    }
}

/// Without fuzz, metal mirrors exactly: the ray leaves in the direction
/// `d - 2 * dot(d, n) * n`, where `d` is the unit direction of the incoming
/// ray and `n` the normal, whatever the jitter; and it leaves exactly when
/// that direction points away from the surface.
pub proof fn lemma_metal_without_fuzz_mirrors(
    m: Metal,
    rec: SurfaceHit,
    ray: Ray,
    jitter: Vec3,
    draw: Scalar,
)
    requires
        m.fuzz == Scalar::spec_zero(),
    ensures
        m.spec_outgoing(rec, ray, jitter) == spec_reflect(
            ray.direction.spec_normalise(),
            rec.normal,
        ),
        m.scatter_outcome(rec, ray, jitter, draw) == (if spec_reflect(
            ray.direction.spec_normalise(),
            rec.normal,
        ).spec_dot(rec.normal).raw > 0 {
            Some(
                (
                    Ray {
                        origin: rec.p,
                        direction: spec_reflect(ray.direction.spec_normalise(), rec.normal),
                        time: ray.time,
                    },
                    m.albedo,
                ),
            )
        } else {
            None
        }),
{
    let still: Vec3 = jitter.spec_scale(m.fuzz);
    assert(still == Vec3::spec_zero());
}

impl Material for Metal {
    open spec fn scatter_outcome(&self, rec: SurfaceHit, ray: Ray, jitter: Vec3, draw: Scalar) -> Option<
        (Ray, Colour),
    > {
        let outgoing: Vec3 = self.spec_outgoing(rec, ray, jitter);
        if outgoing.spec_dot(rec.normal).raw > 0 {
            Some((Ray { origin: rec.p, direction: outgoing, time: ray.time }, self.albedo))
        } else {
            None
        }
    }

    open spec fn emission(&self, u: Scalar, v: Scalar, p: Vec3) -> Colour {
        Colour::spec_black()
    }

    fn scatter_with(&self, rec: &SurfaceHit, ray: &Ray, jitter: Vec3, draw: Scalar) -> (res: Option<
        (Ray, Colour),
    >) {
        let reflected: Vec3 = reflect(ray.direction.normalise(), rec.normal);
        let outgoing: Vec3 = reflected.add(jitter.scale(self.fuzz));
        if outgoing.dot(rec.normal).raw > 0 {
            Some((Ray::new(rec.p, outgoing, ray.time), self.albedo))
        } else {
            None
        }
    }

    /// What leaves, leaves away from the surface and with the metal's
    /// colour.
    fn scatter(&self, rec: &SurfaceHit, ray: &Ray, rng: &mut ThreadRng) -> (res: Option<
        (Ray, Colour),
    >)
        ensures
            res matches Some((out, colour)) ==> colour == self.albedo && out.origin == rec.p
                && out.time == ray.time && out.direction.spec_dot(rec.normal).raw > 0,
    {
        let jitter: Vec3 = Vec3::random_in_unit_sphere(rng);
        let res = self.scatter_with(rec, ray, jitter, Scalar::zero());
        assert(is_unit_sample(Scalar::spec_zero()));
        res
    }

    fn emitted(&self, u: Scalar, v: Scalar, p: Vec3, rng: &mut ThreadRng) -> (c: Colour)
        ensures
            c == Colour::spec_black(),
    {
        Colour::black()
    }
}

/// A clear refracting medium with a fixed index of refraction.
#[derive(Debug, Clone, Copy)]
pub struct Dielectric {
    pub ior: Scalar,
}

impl Dielectric {
    pub fn new(ior: Scalar) -> (m: Self)
        ensures
            m.ior == ior,
    {
        Self { ior }
    }

    /// Ratio of the refractive indices on the two sides, seen from the
    /// ray: `1 / ior` on the way in, `ior` on the way out.
    pub open spec fn spec_ratio(&self, front_face: bool) -> Scalar {
        if front_face {
            Scalar::spec_one().spec_div(self.ior)
        } else {
            self.ior
        }
    }

    /// Cosine of the angle of incidence, held to at most one.
    pub open spec fn spec_cos(unit: Vec3, normal: Vec3) -> Scalar {
        unit.spec_neg().spec_dot(normal).spec_min(Scalar::spec_one())
    }

    /// The direction in which the ray leaves: mirrored where Snell's law
    /// allows no refraction or where the draw falls below the Fresnel
    /// reflectance, refracted otherwise.
    pub open spec fn spec_outgoing(&self, rec: SurfaceHit, ray: Ray, draw: Scalar) -> Vec3 {
        let unit: Vec3 = ray.direction.spec_normalise();
        match spec_refract(unit, rec.normal, self.spec_ratio(rec.front_face)) {
            Some(refracted) => if draw.raw < spec_schlick(
                Self::spec_cos(unit, rec.normal),
                self.ior,
            ).raw {
                spec_reflect(unit, rec.normal)
            } else {
                refracted
            },
            None => spec_reflect(unit, rec.normal),
        }
    }
}

/// Whether a ray with this unit direction meets the surface head-on: its
/// direction is the normal reversed, so the cosine of incidence is one.
pub open spec fn is_head_on(unit: Vec3, normal: Vec3) -> bool {
    unit.spec_dot(normal).raw == -UNIT && Dielectric::spec_cos(unit, normal) == Scalar::spec_one()
}

/// A medium with the refractive index of its surroundings (`ior == 1`)
/// does not bend a ray that meets it head-on, and reflects none of it: the
/// ray goes on from the point of the hit in its own unit direction. The
/// law is stated for vectors whose components stay clear of the ends of the
/// scalar range, where sums do not saturate.
pub proof fn lemma_matched_index_goes_straight(
    m: Dielectric,
    rec: SurfaceHit,
    ray: Ray,
    jitter: Vec3,
    draw: Scalar,
)
    requires
        m.ior == Scalar::spec_one(),
        is_unit_sample(draw),
        is_head_on(ray.direction.spec_normalise(), rec.normal),
        ray.direction.spec_normalise().spec_is_moderate(),
        rec.normal.spec_is_moderate(),
    ensures
        m.scatter_outcome(rec, ray, jitter, draw) == Some(
            (
                Ray { origin: rec.p, direction: ray.direction.spec_normalise(), time: ray.time },
                Colour::spec_white(),
            ),
        ),
{
    let one: Scalar = Scalar::spec_one();
    let unit: Vec3 = ray.direction.spec_normalise();
    let n: Vec3 = rec.normal;
    let ratio: Scalar = m.spec_ratio(rec.front_face);
    assert(ratio == one) by {
        assert((UNIT as int * UNIT as int) / (UNIT as int) == UNIT as int);
    }
    let dt: Scalar = unit.spec_dot(n);
    assert(dt.spec_mul(dt) == one);
    assert(one.spec_mul(one) == one);
    assert(one.spec_sub(dt.spec_mul(dt)).raw == 0);
    assert(one.spec_mul(one).spec_mul(one.spec_sub(dt.spec_mul(dt))).raw == 0);
    let disc: Scalar = spec_snell_discriminant(unit, n, ratio);
    assert(disc == one);
    assert(disc.spec_sqrt() == one) by {
        assert(UNIT as int * UNIT as int == 4294967296);
        assert(crate::scalar::is_root_of(65536, 4294967296)) by (nonlinear_arith);
        lemma_isqrt_unique(4294967296, 65536);
    }
    lemma_scale_by_one(n);
    lemma_scale_by_minus_one(n);
    let bent: Vec3 = unit.spec_sub(n.spec_scale(dt));
    lemma_scale_by_one(bent);
    assert(spec_refract(unit, n, ratio) == Some(unit));
    lemma_matched_index_reflects_nothing();
}

/// Between media of one refractive index (`ratio == 1`) Snell's law always
/// has a solution: there is no total internal reflection.
pub proof fn lemma_matched_index_always_refracts(unit: Vec3, normal: Vec3)
    ensures
        spec_snell_discriminant(unit, normal, Scalar::spec_one()).raw >= 0,
        spec_refract(unit, normal, Scalar::spec_one()) is Some,
{
    let one: Scalar = Scalar::spec_one();
    let dt: Scalar = unit.spec_dot(normal);
    let square: Scalar = dt.spec_mul(dt);
    assert(square.raw >= 0) by {
        assert((dt.raw as int * dt.raw as int) / (UNIT as int) >= 0) by (nonlinear_arith)
            requires
                UNIT == 65536,
        ;
    }
    assert(one.spec_mul(one) == one);
    let rest: Scalar = one.spec_sub(square);
    assert(rest.raw == UNIT - square.raw);
    assert((UNIT as int * rest.raw as int) / (UNIT as int) == rest.raw as int);
    assert(one.spec_mul(rest) == rest);
    assert(spec_snell_discriminant(unit, normal, one) == square);
}

/// Scaling by one changes nothing.
pub proof fn lemma_scale_by_one(v: Vec3)
    ensures
        v.spec_scale(Scalar::spec_one()) == v,
{
    assert((v.x.raw as int * UNIT as int) / (UNIT as int) == v.x.raw as int);
    assert((v.y.raw as int * UNIT as int) / (UNIT as int) == v.y.raw as int);
    assert((v.z.raw as int * UNIT as int) / (UNIT as int) == v.z.raw as int);
}

/// Scaling by minus one negates.
pub proof fn lemma_scale_by_minus_one(v: Vec3)
    ensures
        v.spec_scale(Scalar::spec_one().spec_neg()) == v.spec_neg(),
{
    assert((v.x.raw as int * -65536) / 65536 == -(v.x.raw as int));
    assert((v.y.raw as int * -65536) / 65536 == -(v.y.raw as int));
    assert((v.z.raw as int * -65536) / 65536 == -(v.z.raw as int));
}

impl Material for Dielectric {
    open spec fn scatter_outcome(&self, rec: SurfaceHit, ray: Ray, jitter: Vec3, draw: Scalar) -> Option<
        (Ray, Colour),
    > {
        Some(
            (
                Ray { origin: rec.p, direction: self.spec_outgoing(rec, ray, draw), time: ray.time },
                Colour::spec_white(),
            ),
        )
    }

    open spec fn emission(&self, u: Scalar, v: Scalar, p: Vec3) -> Colour {
        Colour::spec_black()
    }

    fn scatter_with(&self, rec: &SurfaceHit, ray: &Ray, jitter: Vec3, draw: Scalar) -> (res: Option<
        (Ray, Colour),
    >) {
        let attenuation: Colour = Colour::white();
        let ratio: Scalar = if rec.front_face {
            Scalar::one().div(self.ior)
        } else {
            self.ior
        };
        let unit: Vec3 = ray.direction.normalise();
        let cos: Scalar = unit.neg().dot(rec.normal).min(Scalar::one());
        match refract(unit, rec.normal, ratio) {
            Some(refracted) => {
                let reflectance: Scalar = schlick(cos, self.ior);
                if draw.raw < reflectance.raw {
                    let reflected: Vec3 = reflect(unit, rec.normal);
                    return Some((Ray::new(rec.p, reflected, ray.time), attenuation));
                }
                Some((Ray::new(rec.p, refracted, ray.time), attenuation))
            },
            None => {
                let reflected: Vec3 = reflect(unit, rec.normal);
                Some((Ray::new(rec.p, reflected, ray.time), attenuation))
            },
        }
    }

    /// Always scatters, and takes nothing from the light: the ray leaves
    /// from the hit either mirrored or refracted, weighted by white.
    fn scatter(&self, rec: &SurfaceHit, ray: &Ray, rng: &mut ThreadRng) -> (res: Option<
        (Ray, Colour),
    >)
        ensures
            res matches Some((out, colour)) && colour == Colour::spec_white() && out.origin
                == rec.p && out.time == ray.time && (out.direction == spec_reflect(
                ray.direction.spec_normalise(),
                rec.normal,
            ) || Some(out.direction) == spec_refract(
                ray.direction.spec_normalise(),
                rec.normal,
                self.spec_ratio(rec.front_face),
            )),
    {
        let draw: Scalar = sample_unit(rng);
        let res = self.scatter_with(rec, ray, Vec3::zero(), draw);
        assert(Vec3::spec_zero().spec_in_unit_sphere());
        res
    }

    fn emitted(&self, u: Scalar, v: Scalar, p: Vec3, rng: &mut ThreadRng) -> (c: Colour)
        ensures
            c == Colour::spec_black(),
    {
        Colour::black()
    }
}

/// A light: it gives off its texture's colour and sends no ray on.
#[derive(Debug, Clone, Copy)]
pub struct DiffuseLight<T: Texture> {
    pub emit: T,
}

impl<T: Texture> DiffuseLight<T> {
    pub fn new(emit: T) -> (m: Self)
        ensures
            m.emit == emit,
    {
        Self { emit }
    }
}

impl<T: Texture> Material for DiffuseLight<T> {
    open spec fn scatter_outcome(&self, rec: SurfaceHit, ray: Ray, jitter: Vec3, draw: Scalar) -> Option<
        (Ray, Colour),
    > {
        None
    }

    open spec fn emission(&self, u: Scalar, v: Scalar, p: Vec3) -> Colour {
        self.emit.colour_at(u, v, p)
    }

    fn scatter_with(&self, rec: &SurfaceHit, ray: &Ray, jitter: Vec3, draw: Scalar) -> (res: Option<
        (Ray, Colour),
    >)
        ensures
            res is None,
    {
        None
    }

    fn scatter(&self, rec: &SurfaceHit, ray: &Ray, rng: &mut ThreadRng) -> (res: Option<
        (Ray, Colour),
    >)
        ensures
            res is None,
    {
        assert(is_unit_sample(Scalar::spec_zero()));
        assert(Vec3::spec_zero().spec_in_unit_sphere());
        assert(self.scatter_outcome(*rec, *ray, Vec3::spec_zero(), Scalar::spec_zero()) is None);
        None
    }

    fn emitted(&self, u: Scalar, v: Scalar, p: Vec3, rng: &mut ThreadRng) -> (c: Colour)
        ensures
            c == self.emit.colour_at(u, v, p),
    {
        self.emit.value(u, v, p)
    }
}

} // verus!
