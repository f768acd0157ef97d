use raycore::colour::Colour;
use raycore::hittable::SurfaceHit;
use raycore::material::schlick;
use raycore::material::Dielectric;
use raycore::material::DiffuseLight;
use raycore::material::Lambertian;
use raycore::material::Material;
use raycore::material::Metal;
use raycore::ray::Ray;
use raycore::scalar::Scalar;
use raycore::scalar::UNIT;
use raycore::texture::SolidColour;
use raycore::texture::Texture;
use raycore::vec3::Vec3;

fn v(x: i32, y: i32, z: i32) -> Vec3 {
    Vec3::new(Scalar::from_int(x), Scalar::from_int(y), Scalar::from_int(z))
}

fn vr(x: i64, y: i64, z: i64) -> Vec3 {
    Vec3::new(Scalar::from_raw(x), Scalar::from_raw(y), Scalar::from_raw(z))
}

fn half() -> Scalar {
    Scalar::from_raw(UNIT / 2)
}

fn grey() -> Colour {
    Colour::new(half(), half(), half())
}

/// A hit at `(1, 0, 2)` on a floor whose normal points up.
fn on_the_floor(front_face: bool) -> SurfaceHit {
    SurfaceHit {
        u: Scalar::from_raw(100),
        v: Scalar::from_raw(200),
        t: Scalar::from_int(3),
        p: v(1, 0, 2),
        normal: v(0, 1, 0),
        front_face,
    }
}

fn falling() -> Ray {
    Ray::new(v(1, 3, 2), v(0, -3, 0), Scalar::from_raw(7))
}

fn slanting() -> Ray {
    Ray::new(v(0, 1, 2), v(1, -1, 0), Scalar::from_raw(7))
}

/// A texture that varies: it shows the coordinates it is asked at.
struct Coordinates;

impl Texture for Coordinates {
    // The function of the trait that exists for contracts is never run.
    fn colour_at(&self, _u: Scalar, _v: Scalar, _p: Vec3) -> Colour {
        unreachable!()
    }

    fn value(&self, u: Scalar, v: Scalar, p: Vec3) -> Colour {
        Colour::new(u, v, p.x)
    }
}

#[test]
fn colours() {
    assert_eq!(Colour::black(), Colour::new(Scalar::zero(), Scalar::zero(), Scalar::zero()));
    assert_eq!(Colour::white(), Colour::new(Scalar::one(), Scalar::one(), Scalar::one()));
    let c = Colour::new(Scalar::from_raw(1), Scalar::from_raw(2), Scalar::from_raw(3));
    assert_eq!((c.r.raw, c.g.raw, c.b.raw), (1, 2, 3));
}

#[test]
fn solid_colour_is_the_same_everywhere() {
    let t = SolidColour::new(grey());
    assert_eq!(t.value(Scalar::zero(), Scalar::zero(), v(0, 0, 0)), grey());
    assert_eq!(t.value(Scalar::one(), half(), v(9, -9, 3)), grey());
}

#[test]
fn schlick_head_on_is_the_base_reflectance() {
    let glass = Scalar::from_raw(3 * UNIT / 2);
    assert_eq!(schlick(Scalar::one(), glass).raw, 2621);
    assert_eq!(schlick(Scalar::one(), Scalar::from_int(2)).raw, 7282);
    assert_eq!(schlick(Scalar::one(), Scalar::one()).raw, 0);
}

#[test]
fn schlick_grazing_is_one() {
    assert_eq!(schlick(Scalar::zero(), Scalar::from_raw(3 * UNIT / 2)), Scalar::one());
    assert_eq!(schlick(Scalar::zero(), Scalar::from_int(2)), Scalar::one());
    assert_eq!(schlick(Scalar::zero(), Scalar::one()), Scalar::one());
    assert_eq!(schlick(Scalar::zero(), Scalar::one().neg()), Scalar::one());
}

#[test]
fn schlick_in_between() {
    assert_eq!(schlick(half(), Scalar::from_raw(3 * UNIT / 2)).raw, 4587);
    assert_eq!(schlick(Scalar::from_raw(46342), Scalar::from_raw(3 * UNIT / 2)).raw, 2756);
}

#[test]
fn lambertian_attenuation_is_the_albedo() {
    let m = Lambertian::new(SolidColour::new(grey()));
    let mut rng = rand::thread_rng();
    for _ in 0..100 {
        let (out, colour) = m.scatter(&on_the_floor(true), &falling(), &mut rng).unwrap();
        assert_eq!(colour, grey());
        assert_eq!(out.origin, v(1, 0, 2));
        assert_eq!(out.time, Scalar::from_raw(7));
        let jitter = out.direction.sub(v(0, 1, 0));
        assert!(jitter.length_squared().raw < UNIT);
    }
}

#[test]
fn lambertian_scatters_round_the_normal() {
    let m = Lambertian::new(SolidColour::new(grey()));
    let jitter = vr(UNIT / 4, -UNIT / 2, UNIT / 8);
    let (out, colour) = m
        .scatter_with(&on_the_floor(true), &falling(), jitter, Scalar::zero())
        .unwrap();
    assert_eq!(out, Ray::new(v(1, 0, 2), vr(16384, 32768, 8192), Scalar::from_raw(7)));
    assert_eq!(colour, grey());
}

#[test]
fn lambertian_samples_its_texture_at_the_hit() {
    let m = Lambertian::new(Coordinates);
    let (_, colour) = m
        .scatter_with(&on_the_floor(true), &falling(), Vec3::zero(), Scalar::zero())
        .unwrap();
    assert_eq!(colour, Colour::new(Scalar::from_raw(100), Scalar::from_raw(200), Scalar::one()));
}

#[test]
fn metal_without_fuzz_is_a_mirror() {
    let m = Metal::new(grey(), Scalar::zero());
    let jitters = [Vec3::zero(), vr(UNIT / 4, -UNIT / 2, UNIT / 8), vr(0, -UNIT + 1, 0)];
    for jitter in jitters {
        let (out, colour) = m
            .scatter_with(&on_the_floor(true), &falling(), jitter, Scalar::zero())
            .unwrap();
        assert_eq!(out, Ray::new(v(1, 0, 2), v(0, 1, 0), Scalar::from_raw(7)));
        assert_eq!(colour, grey());
        let (out, _) = m
            .scatter_with(&on_the_floor(true), &slanting(), jitter, Scalar::zero())
            .unwrap();
        assert_eq!(out.direction, vr(46341, 46342, 0));
    }
    let mut rng = rand::thread_rng();
    for _ in 0..50 {
        let (out, _) = m.scatter(&on_the_floor(true), &slanting(), &mut rng).unwrap();
        assert_eq!(out.direction, vr(46341, 46342, 0));
    }
}

#[test]
fn metal_with_fuzz_moves_the_mirror_image() {
    let m = Metal::new(grey(), half());
    let jitter = vr(UNIT / 4, -UNIT / 2, UNIT / 8);
    let (out, colour) = m
        .scatter_with(&on_the_floor(true), &slanting(), jitter, Scalar::zero())
        .unwrap();
    assert_eq!(out, Ray::new(v(1, 0, 2), vr(54533, 29958, 4096), Scalar::from_raw(7)));
    assert_eq!(colour, grey());
}

#[test]
fn metal_absorbs_what_would_leave_into_the_surface() {
    let m = Metal::new(grey(), Scalar::one());
    let jitter = vr(0, -UNIT + 1, 0);
    assert!(m
        .scatter_with(&on_the_floor(true), &slanting(), jitter, Scalar::zero())
        .is_none());
    let clear = Metal::new(grey(), Scalar::zero());
    let rising = Ray::new(v(1, 0, 2), v(0, 1, 0), Scalar::zero());
    assert!(clear
        .scatter_with(&on_the_floor(true), &rising, Vec3::zero(), Scalar::zero())
        .is_none());
    let mut rng = rand::thread_rng();
    assert!(clear.scatter(&on_the_floor(true), &rising, &mut rng).is_none());
}

#[test]
fn matched_index_passes_a_head_on_ray_straight_through() {
    let m = Dielectric::new(Scalar::one());
    let draws = [0, 1, UNIT / 2, UNIT - 1];
    for front_face in [true, false] {
        for draw in draws {
            let (out, colour) = m
                .scatter_with(
                    &on_the_floor(front_face),
                    &falling(),
                    Vec3::zero(),
                    Scalar::from_raw(draw),
                )
                .unwrap();
            assert_eq!(out, Ray::new(v(1, 0, 2), v(0, -1, 0), Scalar::from_raw(7)));
            assert_eq!(colour, Colour::white());
        }
    }
    let mut rng = rand::thread_rng();
    for _ in 0..50 {
        let (out, _) = m.scatter(&on_the_floor(true), &falling(), &mut rng).unwrap();
        assert_eq!(out.direction, v(0, -1, 0));
    }
}

#[test]
fn glass_refracts_where_the_draw_is_not_below_the_reflectance() {
    let m = Dielectric::new(Scalar::from_raw(3 * UNIT / 2));
    // Entering at 45 degrees the reflectance is 2756 steps.
    let (out, colour) = m
        .scatter_with(&on_the_floor(true), &slanting(), Vec3::zero(), Scalar::from_raw(2756))
        .unwrap();
    assert_eq!(out, Ray::new(v(1, 0, 2), vr(30893, -57798, 0), Scalar::from_raw(7)));
    assert_eq!(colour, Colour::white());
}

#[test]
fn glass_reflects_where_the_draw_is_below_the_reflectance() {
    let m = Dielectric::new(Scalar::from_raw(3 * UNIT / 2));
    let (out, colour) = m
        .scatter_with(&on_the_floor(true), &slanting(), Vec3::zero(), Scalar::from_raw(2755))
        .unwrap();
    assert_eq!(out, Ray::new(v(1, 0, 2), vr(46341, 46342, 0), Scalar::from_raw(7)));
    assert_eq!(colour, Colour::white());
}

#[test]
fn glass_reflects_all_where_it_cannot_refract() {
    let m = Dielectric::new(Scalar::from_raw(3 * UNIT / 2));
    // Leaving the glass at 45 degrees, Snell's law has no solution.
    for draw in [0, UNIT / 2, UNIT - 1] {
        let (out, colour) = m
            .scatter_with(
                &on_the_floor(false),
                &slanting(),
                Vec3::zero(),
                Scalar::from_raw(draw),
            )
            .unwrap();
        assert_eq!(out.direction, vr(46341, 46342, 0));
        assert_eq!(colour, Colour::white());
    }
    let mut rng = rand::thread_rng();
    for _ in 0..50 {
        let (out, _) = m.scatter(&on_the_floor(false), &slanting(), &mut rng).unwrap();
        assert_eq!(out.direction, vr(46341, 46342, 0));
    }
}

#[test]
fn glass_always_scatters_one_of_two_ways() {
    let m = Dielectric::new(Scalar::from_raw(3 * UNIT / 2));
    let mut rng = rand::thread_rng();
    let mut refracted = 0;
    for _ in 0..400 {
        let (out, colour) = m.scatter(&on_the_floor(true), &slanting(), &mut rng).unwrap();
        assert_eq!(colour, Colour::white());
        if out.direction == vr(30893, -57798, 0) {
            refracted += 1;
        } else {
            assert_eq!(out.direction, vr(46341, 46342, 0));
        }
    }
    // About 96 in 100 are refracted.
    assert!(refracted > 300);
}

#[test]
fn light_never_scatters() {
    let m = DiffuseLight::new(SolidColour::new(grey()));
    let mut rng = rand::thread_rng();
    for front_face in [true, false] {
        assert!(m.scatter(&on_the_floor(front_face), &falling(), &mut rng).is_none());
        assert!(m.scatter(&on_the_floor(front_face), &slanting(), &mut rng).is_none());
        assert!(m
            .scatter_with(&on_the_floor(front_face), &slanting(), v(0, 0, 0), half())
            .is_none());
    }
}

#[test]
fn light_emits_its_texture() {
    let mut rng = rand::thread_rng();
    let m = DiffuseLight::new(SolidColour::new(grey()));
    assert_eq!(m.emitted(Scalar::zero(), Scalar::one(), v(1, 2, 3), &mut rng), grey());
    let varied = DiffuseLight::new(Coordinates);
    assert_eq!(
        varied.emitted(Scalar::from_raw(5), Scalar::from_raw(6), v(7, 8, 9), &mut rng),
        Colour::new(Scalar::from_raw(5), Scalar::from_raw(6), Scalar::from_int(7))
    );
}

#[test]
fn nothing_else_emits() {
    let mut rng = rand::thread_rng();
    let places = [v(0, 0, 0), v(1, 2, 3), v(-9, 9, 0)];
    for p in places {
        for u in [0, 1, UNIT] {
            let u = Scalar::from_raw(u);
            assert_eq!(
                Lambertian::new(SolidColour::new(grey())).emitted(u, u, p, &mut rng),
                Colour::black()
            );
            assert_eq!(Metal::new(grey(), half()).emitted(u, u, p, &mut rng), Colour::black());
            assert_eq!(Dielectric::new(u).emitted(u, u, p, &mut rng), Colour::black());
        }
    }
}

#[test]
fn materials_keep_what_they_were_made_of() {
    assert_eq!(Metal::new(grey(), half()).albedo, grey());
    assert_eq!(Metal::new(grey(), half()).fuzz, half());
    assert_eq!(Dielectric::new(Scalar::from_int(2)).ior, Scalar::from_int(2));
    assert_eq!(Lambertian::new(SolidColour::new(grey())).albedo.colour, grey());
    assert_eq!(DiffuseLight::new(SolidColour::new(grey())).emit.colour, grey());
}
