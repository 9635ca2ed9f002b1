//! Intersection and normal tests for the geometric primitives, and
//! the camera-ray construction.

use raytracer::fixed::Fx;
use raytracer::scene::Scene;
use raytracer::scene::color::Color;
use raytracer::scene::elements::{Element, Intersectable, Material, Plane, Sphere};
use raytracer::scene::helpers::Ray;
use raytracer::vector::Vector3;

fn fx(v: f32) -> Fx {
    Fx { raw: (v * 65536.0).round() as i64 }
}

fn v3(x: f32, y: f32, z: f32) -> Vector3 {
    Vector3 { x: fx(x), y: fx(y), z: fx(z) }
}

fn red() -> Material {
    Material {
        color: Color { red: fx(255.0), green: fx(0.0), blue: fx(0.0) },
        albedo: fx(1.0),
        specular: -1,
        reflectivity: fx(0.0),
    }
}

fn axis_ray() -> Ray {
    Ray { origin: v3(0.0, 0.0, 0.0), direction: v3(0.0, 0.0, -1.0) }
}

#[test]
fn sphere_head_on_hit_distance() {
    // Aimed straight at the center from outside: |origin - center| - radius.
    let s: Sphere = Sphere { center: v3(0.0, 0.0, -5.0), radius: fx(1.0), material: red() };
    let d: Option<Fx> = s.intersect(&axis_ray());
    assert_eq!(d.unwrap().raw, fx(4.0).raw);
}

#[test]
fn sphere_wide_ray_misses() {
    // Closest approach (3 units) exceeds the radius (1 unit).
    let s: Sphere = Sphere { center: v3(3.0, 0.0, -5.0), radius: fx(1.0), material: red() };
    assert!(s.intersect(&axis_ray()).is_none());
}

#[test]
fn sphere_from_inside_reports_the_nearer_chord_end() {
    // From the center the nearer chord endpoint lies one radius behind
    // the origin; the scan policy keeps it even though it is negative.
    let s: Sphere = Sphere { center: v3(0.0, 0.0, -5.0), radius: fx(1.0), material: red() };
    let r: Ray = Ray { origin: v3(0.0, 0.0, -5.0), direction: v3(0.0, 0.0, -1.0) };
    assert_eq!(s.intersect(&r).unwrap().raw, fx(-1.0).raw);
}

#[test]
fn sphere_normal_points_outward() {
    let s: Sphere = Sphere { center: v3(0.0, 0.0, -5.0), radius: fx(1.0), material: red() };
    let n: Vector3 = s.surface_normal(&v3(0.0, 0.0, -4.0));
    assert_eq!((n.x.raw, n.y.raw, n.z.raw), (0, 0, 65536));
}

#[test]
fn plane_front_side_hit_distance() {
    let p: Plane = Plane { origin: v3(0.0, 0.0, -5.0), normal: v3(0.0, 0.0, -1.0), material: red() };
    assert_eq!(p.intersect(&axis_ray()).unwrap().raw, fx(5.0).raw);
}

#[test]
fn plane_is_one_sided() {
    // Same geometry, normal flipped toward the viewer: no hit.
    let p: Plane = Plane { origin: v3(0.0, 0.0, -5.0), normal: v3(0.0, 0.0, 1.0), material: red() };
    assert!(p.intersect(&axis_ray()).is_none());
}

#[test]
fn plane_behind_the_origin_is_rejected() {
    let p: Plane = Plane { origin: v3(0.0, 0.0, 5.0), normal: v3(0.0, 0.0, -1.0), material: red() };
    assert!(p.intersect(&axis_ray()).is_none());
}

#[test]
fn plane_normal_is_the_negated_configured_one() {
    let p: Plane = Plane { origin: v3(0.0, -4.0, 0.0), normal: v3(0.0, -1.0, 0.0), material: red() };
    let n: Vector3 = p.surface_normal(&v3(0.0, 0.0, 0.0));
    assert_eq!((n.x.raw, n.y.raw, n.z.raw), (0, 65536, 0));
}

#[test]
fn element_dispatches_to_its_variant() {
    let s: Element = Element::Sphere(
        Sphere { center: v3(0.0, 0.0, -5.0), radius: fx(1.0), material: red() },
    );
    assert_eq!(s.intersect(&axis_ray()).unwrap().raw, fx(4.0).raw);
    assert_eq!(s.albedo().raw, fx(1.0).raw);
    assert_eq!(s.specular(), -1);
    assert_eq!(s.reflectivity().raw, 0);
    assert_eq!(s.color().red.raw, fx(255.0).raw);
}

#[test]
fn center_pixel_camera_ray_runs_down_negative_z() {
    let scene: Scene = Scene {
        width: 1,
        height: 1,
        fov: fx(70.0),
        elements: Vec::new(),
        lights: Vec::new(),
    };
    let r: Ray = Ray::create_prime(0, 0, &scene);
    assert_eq!((r.origin.x.raw, r.origin.y.raw, r.origin.z.raw), (0, 0, 0));
    assert_eq!((r.direction.x.raw, r.direction.y.raw, r.direction.z.raw), (0, 0, -65536));
}

#[test]
fn normalize_scales_to_unit_length() {
    let v: Vector3 = v3(0.0, -1.0, -2.0).normalize();
    let len_sq: Fx = v.dot(v);
    assert!((len_sq.raw - 65536).abs() < 64);
    let zero: Vector3 = v3(0.0, 0.0, 0.0).normalize();
    assert_eq!((zero.x.raw, zero.y.raw, zero.z.raw), (0, 0, 0));
}
