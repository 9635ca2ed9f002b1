//! End-to-end rendering tests: buffer shape, background, shadowing,
//! reflection depth, determinism, and exact pixel values.

use raytracer::fixed::Fx;
use raytracer::scene::Scene;
use raytracer::scene::color::Color;
use raytracer::scene::elements::{Element, Material, Plane, Sphere};
use raytracer::scene::helpers::{Intersection, Ray};
use raytracer::scene::lights::{Light, LightKind};
use raytracer::vector::Vector3;
use raytracer::{create_demo_scene, get_color, render};

fn fx(v: f32) -> Fx {
    Fx { raw: (v * 65536.0).round() as i64 }
}

fn v3(x: f32, y: f32, z: f32) -> Vector3 {
    Vector3 { x: fx(x), y: fx(y), z: fx(z) }
}

fn rgb(r: f32, g: f32, b: f32) -> Color {
    Color { red: fx(r), green: fx(g), blue: fx(b) }
}

fn white_ambient(intensity: f32) -> Light {
    Light { kind: LightKind::Ambient, color: rgb(1.0, 1.0, 1.0), intensity: fx(intensity) }
}

/// The scene of the end-to-end scenario: one red mirror-like sphere
/// under a weak ambient light, one pixel wide.
fn red_sphere_scene() -> Scene {
    let sphere: Element = Element::Sphere(
        Sphere {
            center: v3(0.0, -0.5, -4.5),
            radius: fx(1.0),
            material: Material {
                color: rgb(255.0, 0.0, 0.0),
                albedo: fx(1.0),
                specular: 50,
                reflectivity: fx(0.9),
            },
        },
    );
    Scene {
        width: 1,
        height: 1,
        fov: fx(70.0),
        elements: vec![sphere],
        lights: vec![white_ambient(0.09)],
    }
}

/// A diffuse wall facing the camera, a point light in front of it,
/// and optionally a small sphere squarely between the two.
fn shadow_scene(with_point_light: bool, with_occluder: bool) -> Scene {
    let wall: Element = Element::Plane(
        Plane {
            origin: v3(0.0, 0.0, -5.0),
            normal: v3(0.0, 0.0, -1.0),
            material: Material {
                color: rgb(60.0, 60.0, 60.0),
                albedo: fx(1.0),
                specular: -1,
                reflectivity: fx(0.0),
            },
        },
    );
    let occluder: Element = Element::Sphere(
        Sphere {
            center: v3(0.5, 0.0, -4.5),
            radius: fx(0.2),
            material: Material {
                color: rgb(255.0, 0.0, 0.0),
                albedo: fx(1.0),
                specular: -1,
                reflectivity: fx(0.0),
            },
        },
    );
    let point: Light = Light {
        kind: LightKind::Point { position: v3(1.0, 0.0, -4.0) },
        color: rgb(1.0, 1.0, 1.0),
        intensity: fx(3.0),
    };
    let mut elements: Vec<Element> = vec![wall];
    if with_occluder {
        elements.push(occluder);
    }
    let mut lights: Vec<Light> = vec![white_ambient(0.5)];
    if with_point_light {
        lights.push(point);
    }
    Scene { width: 1, height: 1, fov: fx(70.0), elements, lights }
}

#[test]
fn buffer_length_is_three_bytes_per_pixel() {
    let scene: Scene = create_demo_scene(7, 5, fx(1.0), fx(0.0), fx(0.0), fx(0.0));
    assert_eq!(render(scene).len(), 7 * 5 * 3);
    let empty: Scene = Scene {
        width: 3,
        height: 2,
        fov: fx(70.0),
        elements: Vec::new(),
        lights: Vec::new(),
    };
    assert_eq!(render(empty).len(), 3 * 2 * 3);
    let none: Scene = Scene {
        width: 0,
        height: 9,
        fov: fx(70.0),
        elements: Vec::new(),
        lights: Vec::new(),
    };
    assert_eq!(render(none).len(), 0);
}

#[test]
fn every_output_byte_is_a_byte() {
    let scene: Scene = create_demo_scene(6, 6, fx(1.0), fx(0.0), fx(0.0), fx(0.0));
    let image: Vec<u8> = render(scene);
    for b in image {
        assert!(b <= 255);
    }
}

#[test]
fn missing_everything_yields_the_black_background() {
    let empty: Scene = Scene {
        width: 2,
        height: 2,
        fov: fx(70.0),
        elements: Vec::new(),
        lights: vec![white_ambient(1.0)],
    };
    assert_eq!(render(empty), vec![0u8; 12]);
}

#[test]
fn an_occluder_between_light_and_surface_silences_that_light() {
    // With the occluder in place, removing the point light entirely
    // changes nothing: its contribution is zero, while the ambient
    // light's share is untouched.
    let with_light: Vec<u8> = render(shadow_scene(true, true));
    let without_light: Vec<u8> = render(shadow_scene(false, true));
    assert_eq!(with_light, without_light);
    assert_eq!(with_light, vec![9u8, 9u8, 9u8]);
}

#[test]
fn the_same_light_counts_when_nothing_occludes_it() {
    let unoccluded: Vec<u8> = render(shadow_scene(true, false));
    assert_ne!(unoccluded, render(shadow_scene(true, true)));
    assert_eq!(unoccluded, vec![29u8, 29u8, 29u8]);
}

#[test]
fn depth_zero_adds_no_reflection_whatever_the_reflectivity() {
    let scene: Scene = red_sphere_scene();
    let mut matte: Scene = red_sphere_scene();
    if let Element::Sphere(s) = &mut matte.elements[0] {
        s.material.reflectivity = fx(0.0);
    }
    let ray: Ray = Ray::create_prime(0, 0, &scene);
    let hit: Intersection = scene.trace(&ray).unwrap();
    let shiny_color: Color = get_color(&scene, &ray, hit, 0);
    let matte_hit: Intersection = matte.trace(&ray).unwrap();
    let matte_color: Color = get_color(&matte, &ray, matte_hit, 0);
    assert_eq!(shiny_color, matte_color);
    // With budget left, the reflective sphere blends in the sky.
    assert_ne!(get_color(&scene, &ray, hit, 3), shiny_color);
}

#[test]
fn rendering_twice_is_byte_identical() {
    let first: Vec<u8> = render(create_demo_scene(5, 4, fx(1.0), fx(0.1), fx(0.0), fx(0.2)));
    let second: Vec<u8> = render(create_demo_scene(5, 4, fx(1.0), fx(0.1), fx(0.0), fx(0.2)));
    assert_eq!(first, second);
}

#[test]
fn single_red_sphere_under_weak_ambient_light() {
    // The pixel's ray passes through the scene center and hits the
    // sphere; with no reflection budget the shade is exactly the muted
    // red 255 * (1/pi) * 0.09, truncated: (7, 0, 0).
    let scene: Scene = red_sphere_scene();
    let ray: Ray = Ray::create_prime(0, 0, &scene);
    let hit: Intersection = scene.trace(&ray).unwrap();
    assert_eq!(hit.distance.raw, 238157);
    let color: Color = get_color(&scene, &ray, hit, 0);
    assert_eq!(color.quantize(), (7u8, 0u8, 0u8));
}

#[test]
fn single_red_sphere_with_reflection_blends_the_sky() {
    // At the default depth the mirror-like sphere reflects the empty
    // sky, so the blue-tinted sky shows through the blend.
    assert_eq!(render(red_sphere_scene()), vec![36u8, 35u8, 53u8]);
}

#[test]
fn demo_scene_renders_exactly() {
    let scene: Scene = create_demo_scene(4, 4, fx(1.0), fx(0.0), fx(0.0), fx(0.0));
    let expected: Vec<u8> = vec![
        0, 0, 0, 0, 0, 0, 0, 0, 0, 0, 4, 0, 0, 0, 0, 0, 0, 0, 0, 0, 0, 0, 72, 0, 0, 0, 28, 32,
        6, 6, 10, 6, 6, 7, 7, 7, 9, 9, 9, 9, 9, 9, 9, 9, 9, 8, 8, 8,
    ];
    assert_eq!(render(scene), expected);
}

#[test]
fn brightness_scales_the_demo_lights() {
    let dim: Vec<u8> = render(create_demo_scene(4, 4, fx(0.1), fx(0.0), fx(0.0), fx(0.0)));
    let bright: Vec<u8> = render(create_demo_scene(4, 4, fx(1.0), fx(0.0), fx(0.0), fx(0.0)));
    assert_ne!(dim, bright);
    assert_eq!(dim.len(), bright.len());
}

#[test]
fn the_demo_scene_validates() {
    let scene: Scene = create_demo_scene(4, 4, fx(1.0), fx(0.0), fx(0.0), fx(0.0));
    assert_eq!(scene.validate(), Ok(()));
}
