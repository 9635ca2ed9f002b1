//! A small recursive ray tracer over fixed-point arithmetic.
//!
//! A scene of spheres, planes and lights is rendered into a flat
//! row-major RGB byte buffer.  Every scalar is a [`fixed::Fx`]
//! fixed-point number, so the whole pipeline is verified: each
//! executable function returns exactly the value of its mathematical
//! model, stated by the spec functions beside it.

use vstd::prelude::*;

pub mod fixed;
pub mod scene;
pub mod vector;

use crate::fixed::{Fx, fx_add, fx_div, fx_mul, fx_pow, fx_sub};
use crate::scene::color::{Color, ColorM, byte_of, c_add, c_clamp, c_mul, c_scale, lemma_byte_of_range};
use crate::scene::elements::{
    Element, ElementM, Intersectable, Material, MaterialM, Plane, PlaneM, Sphere, SphereM,
    elem_material, elem_normal_m,
};
use crate::scene::helpers::{Intersection, Ray, RayM, create_prime_spec};
use crate::scene::lights::{Light, LightKind, LightKindM, LightM};
use crate::scene::{Scene, SceneM, trace_spec};
use crate::vector::{Vector3, Vector3M, v3_add, v3_dot, v3_neg, v3_normalize, v3_scale, v3_sub};
use vstd::arithmetic::div_mod::lemma_fundamental_div_mod_converse;

verus! {

/// Raw fixed-point value of pi.
pub const FX_PI: i64 = 205887;

/// Raw offset applied along the surface normal to the origin of a
/// shadow ray, so the surface does not occlude itself.
pub const SHADOW_BIAS: i64 = 7;

/// Raw offset applied along the surface normal to the origin of a
/// reflection ray, so the surface does not reflect itself.
pub const REFLECT_BIAS: i64 = 7;

/// The starting reflection budget of a render.
pub const DEFAULT_RECURSION_DEPTH: u32 = 3;

/// One light's contribution folded onto the running color tint and
/// intensity, exactly as the shader computes it.
#[verifier::opaque]
pub open spec fn light_step(
    sc: SceneM,
    ray: RayM,
    hit: Vector3M,
    normal: Vector3M,
    mat: MaterialM,
    acc_color: ColorM,
    acc_intensity: int,
    light: LightM,
) -> (ColorM, int) {
    let color: ColorM = c_mul(acc_color, light.color);
    match light.kind {
        LightKindM::Ambient => (color, fx_add(acc_intensity, light.intensity)),
        LightKindM::Point { position } => {
            let impact: Vector3M = v3_sub(position, hit);
            let distance_squared: int = v3_dot(impact, impact);
            let light_intensity: int = fx_div(light.intensity, distance_squared);
            let dir: Vector3M = v3_normalize(impact);
            let normal_dot_impact: int = v3_dot(normal, dir);
            let shadow_ray: RayM = RayM {
                origin: v3_add(hit, v3_scale(normal, SHADOW_BIAS as int)),
                direction: dir,
            };
            let in_light: bool = match trace_spec(sc, shadow_ray) {
                Option::None => true,
                Option::Some((si, sd)) => fx_mul(sd, sd) > distance_squared,
            };
            let after_diffuse: int = if normal_dot_impact > 0 && in_light {
                fx_add(acc_intensity, fx_mul(normal_dot_impact, light_intensity))
            } else {
                acc_intensity
            };
            let after_specular: int = if mat.specular >= 0 {
                let light_exit: Vector3M = v3_normalize(
                    v3_sub(v3_scale(normal, fx_mul(131072, v3_dot(dir, normal))), dir),
                );
                let resemblance: int = v3_dot(light_exit, v3_neg(ray.direction));
                if resemblance > 0 {
                    fx_add(
                        after_diffuse,
                        fx_mul(
                            light_intensity,
                            fx_pow(fx_mul(resemblance, resemblance), mat.specular as nat),
                        ),
                    )
                } else {
                    after_diffuse
                }
            } else {
                after_diffuse
            };
            (color, after_specular)
        },
        LightKindM::Directional { direction } => {
            let dir: Vector3M = v3_neg(direction);
            let normal_dot_impact: int = v3_dot(normal, dir);
            let shadow_ray: RayM = RayM {
                origin: v3_add(hit, v3_scale(normal, SHADOW_BIAS as int)),
                direction: dir,
            };
            let in_light: bool = trace_spec(sc, shadow_ray) is None;
            let after: int = if normal_dot_impact > 0 && in_light {
                fx_add(acc_intensity, fx_mul(normal_dot_impact, light.intensity))
            } else {
                acc_intensity
            };
            (color, after)
        },
    }
}

/// An occluded point light adds nothing: when the shadow ray toward a
/// point light reports a hit no farther than the squared distance to
/// the light, the light's whole intensity contribution to a diffuse
/// surface (one without a specular highlight) is zero — the step
/// leaves the accumulated intensity unchanged and only applies the
/// usual color tint.  Other lights are folded in by their own steps,
/// so their contributions are untouched.
pub proof fn lemma_occluded_point_light_adds_nothing(
    sc: SceneM,
    ray: RayM,
    hit: Vector3M,
    normal: Vector3M,
    mat: MaterialM,
    acc_color: ColorM,
    acc_intensity: int,
    light: LightM,
    position: Vector3M,
)
    requires
        light.kind == (LightKindM::Point { position }),
        mat.specular < 0,
        ({
            let impact: Vector3M = v3_sub(position, hit);
            let shadow_ray: RayM = RayM {
                origin: v3_add(hit, v3_scale(normal, SHADOW_BIAS as int)),
                direction: v3_normalize(impact),
            };
            trace_spec(sc, shadow_ray) matches Some((si, sd)) && fx_mul(sd, sd) <= v3_dot(
                impact,
                impact,
            )
        }),
    ensures
        light_step(sc, ray, hit, normal, mat, acc_color, acc_intensity, light).1 == acc_intensity,
        light_step(sc, ray, hit, normal, mat, acc_color, acc_intensity, light).0 == c_mul(
            acc_color,
            light.color,
        ),
{
    reveal(light_step);
}

/// The color tint and summed intensity after the first `n` lights, in
/// list order, starting from the material's base color.
pub open spec fn light_fold(
    sc: SceneM,
    ray: RayM,
    hit: Vector3M,
    normal: Vector3M,
    mat: MaterialM,
    n: nat,
) -> (ColorM, int)
    decreases n,
{
    if n == 0 {
        (mat.color, 0)
    } else {
        let prev: (ColorM, int) = light_fold(sc, ray, hit, normal, mat, (n - 1) as nat);
        light_step(sc, ray, hit, normal, mat, prev.0, prev.1, sc.lights[n - 1])
    }
}

/// The directly lit color at a hit: the folded tint scaled by
/// `albedo / pi` and by the summed intensity, then clamped.  No
/// mirror reflection yet.
#[verifier::opaque]
pub open spec fn shade_base(sc: SceneM, ray: RayM, idx: int, dist: int) -> ColorM {
    let e: ElementM = sc.elements[idx];
    let mat: MaterialM = elem_material(e);
    let hit: Vector3M = v3_add(ray.origin, v3_scale(ray.direction, dist));
    let normal: Vector3M = elem_normal_m(e, hit);
    let lit: (ColorM, int) = light_fold(sc, ray, hit, normal, mat, sc.lights.len());
    c_clamp(c_scale(c_scale(lit.0, fx_div(mat.albedo, FX_PI as int)), lit.1))
}

/// The full shaded color at a hit: the directly lit color, blended
/// with a recursively traced mirror reflection while the depth budget
/// and the material's reflectivity allow one.  A reflection that hits
/// nothing blends against the fixed sky color (40, 40, 60).
pub open spec fn shade_spec(sc: SceneM, ray: RayM, idx: int, dist: int, depth: nat) -> ColorM
    decreases depth,
{
    let e: ElementM = sc.elements[idx];
    let mat: MaterialM = elem_material(e);
    let hit: Vector3M = v3_add(ray.origin, v3_scale(ray.direction, dist));
    let normal: Vector3M = elem_normal_m(e, hit);
    let base: ColorM = shade_base(sc, ray, idx, dist);
    if depth > 0 && mat.reflectivity > 0 {
        let exit_dir: Vector3M = v3_sub(
            ray.direction,
            v3_scale(normal, fx_mul(131072, v3_dot(ray.direction, normal))),
        );
        let refl_ray: RayM = RayM {
            origin: v3_add(hit, v3_scale(normal, REFLECT_BIAS as int)),
            direction: exit_dir,
        };
        match trace_spec(sc, refl_ray) {
            Option::Some((ri, rd)) => {
                let reflection: ColorM = c_scale(
                    shade_spec(sc, refl_ray, ri, rd, (depth - 1) as nat),
                    mat.reflectivity,
                );
                c_add(
                    c_scale(base, fx_sub(65536, mat.reflectivity)),
                    c_scale(reflection, mat.reflectivity),
                )
            },
            Option::None => {
                let sky: ColorM = ColorM { red: 2621440, green: 2621440, blue: 3932160 };
                c_add(c_scale(base, fx_sub(65536, mat.reflectivity)), c_scale(sky, mat.reflectivity))
            },
        }
    } else {
        base
    }
}

/// With an exhausted depth budget no reflective contribution is
/// blended in, whatever the material's reflectivity: the shade is the
/// directly lit color alone.
pub proof fn lemma_no_reflection_at_depth_zero(sc: SceneM, ray: RayM, idx: int, dist: int)
    ensures
        shade_spec(sc, ray, idx, dist, 0) == shade_base(sc, ray, idx, dist),
{
}

/// Fold one light's contribution onto the running tint and intensity.
#[verifier::rlimit(100)]
fn apply_light(
    scene: &Scene,
    ray: &Ray,
    hit_point: Vector3,
    surface_normal: Vector3,
    element: &Element,
    color: Color,
    intensity: Fx,
    light: &Light,
) -> (r: (Color, Fx))
    ensures
        (r.0@, r.1@) == light_step(
            scene@,
            ray@,
            hit_point@,
            surface_normal@,
            elem_material(element@),
            color@,
            intensity@,
            light@,
        ),
{
    proof {
        reveal(light_step);
    }
    let color: Color = color.multiply(light.color);
    let mut intensity: Fx = intensity;
    match &light.kind {
        LightKind::Ambient => {
            intensity = intensity.add(light.intensity);
        },
        LightKind::Point { position } => {
            let impact_to_light: Vector3 = (*position).sub(hit_point);
            let distance_squared: Fx = impact_to_light.dot(impact_to_light);
            let light_intensity: Fx = light.intensity.div(distance_squared);
            let dir: Vector3 = impact_to_light.normalize();
            let normal_dot_impact: Fx = surface_normal.dot(dir);
            let shadow_ray: Ray = Ray {
                origin: hit_point.add(surface_normal.scale(Fx { raw: SHADOW_BIAS })),
                direction: dir,
            };
            let shadow_intersection: Option<Intersection> = scene.trace(&shadow_ray);
            let in_light: bool = match &shadow_intersection {
                None => true,
                Some(s) => s.distance.mul(s.distance).raw > distance_squared.raw,
            };
            if normal_dot_impact.raw > 0 && in_light {
                intensity = intensity.add(normal_dot_impact.mul(light_intensity));
            }
            let spec_exp: i64 = element.specular();
            if spec_exp >= 0 {
                let light_exit: Vector3 = surface_normal.scale(
                    Fx { raw: 131072 }.mul(dir.dot(surface_normal)),
                ).sub(dir).normalize();
                let resemblance: Fx = light_exit.dot(ray.direction.neg());
                if resemblance.raw > 0 {
                    intensity = intensity.add(
                        light_intensity.mul(resemblance.mul(resemblance).powi(spec_exp as u64)),
                    );
                }
            }
        },
        LightKind::Directional { direction } => {
            let dir: Vector3 = (*direction).neg();
            let normal_dot_impact: Fx = surface_normal.dot(dir);
            let shadow_ray: Ray = Ray {
                origin: hit_point.add(surface_normal.scale(Fx { raw: SHADOW_BIAS })),
                direction: dir,
            };
            let in_light: bool = scene.trace(&shadow_ray).is_none();
            if normal_dot_impact.raw > 0 && in_light {
                intensity = intensity.add(normal_dot_impact.mul(light.intensity));
            }
        },
    }
    (color, intensity)
}

/// Shade the nearest intersection found along `ray`.
pub fn get_color(scene: &Scene, ray: &Ray, intersection: Intersection, recursion_depth: u32) -> (r:
    Color)
    requires
        intersection.element < scene.elements.len(),
    ensures
        r@ == shade_spec(
            scene@,
            ray@,
            intersection.element as int,
            intersection.distance@,
            recursion_depth as nat,
        ),
    decreases recursion_depth,
{
    let element: &Element = &scene.elements[intersection.element];
    let hit_point: Vector3 = ray.origin.add(ray.direction.scale(intersection.distance));
    let surface_normal: Vector3 = element.surface_normal(&hit_point);

    let mut color: Color = element.color();
    let mut intensity: Fx = Fx { raw: 0 };
    let mut i: usize = 0;
    while i < scene.lights.len()
        invariant
            i <= scene.lights.len(),
            intersection.element < scene.elements.len(),
            element@ == scene@.elements[intersection.element as int],
            hit_point@ == v3_add(ray@.origin, v3_scale(ray@.direction, intersection.distance@)),
            surface_normal@ == elem_normal_m(
                scene@.elements[intersection.element as int],
                hit_point@,
            ),
            (color@, intensity@) == light_fold(
                scene@,
                ray@,
                hit_point@,
                surface_normal@,
                elem_material(scene@.elements[intersection.element as int]),
                i as nat,
            ),
        decreases scene.lights.len() - i,
    {
        let ghost prev_color: ColorM = color@;
        let ghost prev_intensity: int = intensity@;
        let light: &Light = &scene.lights[i];
        let stepped: (Color, Fx) = apply_light(
            scene,
            ray,
            hit_point,
            surface_normal,
            element,
            color,
            intensity,
            light,
        );
        color = stepped.0;
        intensity = stepped.1;
        proof {
            let matm: MaterialM = elem_material(scene@.elements[intersection.element as int]);
            assert(light@ == scene@.lights[i as int]);
            assert(element@ == scene@.elements[intersection.element as int]);
            assert(light_fold(scene@, ray@, hit_point@, surface_normal@, matm, (i + 1) as nat)
                == light_step(
                scene@,
                ray@,
                hit_point@,
                surface_normal@,
                matm,
                prev_color,
                prev_intensity,
                scene@.lights[i as int],
            ));
        }
        i = i + 1;
    }

    let light_reflected: Fx = element.albedo().div(Fx { raw: FX_PI });
    color = color.multiply_scalar(light_reflected).multiply_scalar(intensity).clamp();
    proof {
        reveal(shade_base);
        assert(color@ == shade_base(
            scene@,
            ray@,
            intersection.element as int,
            intersection.distance@,
        ));
    }

    if recursion_depth > 0 && element.reflectivity().raw > 0 {
        let exit_dir: Vector3 = ray.direction.sub(
            surface_normal.scale(Fx { raw: 131072 }.mul(ray.direction.dot(surface_normal))),
        );
        let reflection_ray: Ray = Ray {
            origin: hit_point.add(surface_normal.scale(Fx { raw: REFLECT_BIAS })),
            direction: exit_dir,
        };
        let reflection_intersection: Option<Intersection> = scene.trace(&reflection_ray);
        if let Some(inter) = reflection_intersection {
            let reflection_color: Color = get_color(
                scene,
                &reflection_ray,
                inter,
                recursion_depth - 1,
            ).multiply_scalar(element.reflectivity());
            color = color.multiply_scalar(Fx { raw: 65536 }.sub(element.reflectivity()));
            color = color.add(reflection_color.multiply_scalar(element.reflectivity()));
        } else {
            let background_color: Color = Color {
                red: Fx { raw: 2621440 },
                green: Fx { raw: 2621440 },
                blue: Fx { raw: 3932160 },
            };
            color = color.multiply_scalar(Fx { raw: 65536 }.sub(element.reflectivity()));
            color = color.add(background_color.multiply_scalar(element.reflectivity()));
        }
    }

    color
}

/// The demo scene: three spheres over a plane, lit by an ambient, a
/// directional and a point light.  `brightness` scales every light
/// intensity; the deltas move the red sphere.
pub open spec fn demo_scene_m(brightness: int, dx: int, dy: int, dz: int) -> SceneM {
    let red_sphere: ElementM = ElementM::Sphere(
        SphereM {
            center: Vector3M { x: dx, y: fx_add(-32768, dy), z: fx_add(-294912, dz) },
            radius: 65536,
            material: MaterialM {
                color: ColorM { red: 16711680, green: 0, blue: 0 },
                albedo: 65536,
                specular: 50,
                reflectivity: 58982,
            },
        },
    );
    let green_sphere: ElementM = ElementM::Sphere(
        SphereM {
            center: Vector3M { x: 131072, y: 65536, z: -170394 },
            radius: 65536,
            material: MaterialM {
                color: ColorM { red: 0, green: 16711680, blue: 0 },
                albedo: 65536,
                specular: 50,
                reflectivity: 0,
            },
        },
    );
    let blue_sphere: ElementM = ElementM::Sphere(
        SphereM {
            center: Vector3M { x: -196608, y: -65536, z: -360448 },
            radius: 65536,
            material: MaterialM {
                color: ColorM { red: 0, green: 0, blue: 16711680 },
                albedo: 65536,
                specular: 10,
                reflectivity: 13107,
            },
        },
    );
    let plane: ElementM = ElementM::Plane(
        PlaneM {
            origin: Vector3M { x: 0, y: -262144, z: 0 },
            normal: Vector3M { x: 0, y: -65536, z: 0 },
            material: MaterialM {
                color: ColorM { red: 3932160, green: 3932160, blue: 3932160 },
                albedo: 65536,
                specular: -1,
                reflectivity: 0,
            },
        },
    );
    let white: ColorM = ColorM { red: 65536, green: 65536, blue: 65536 };
    let ambient: LightM = LightM {
        kind: LightKindM::Ambient,
        color: white,
        intensity: fx_mul(3932, brightness),
    };
    let directional: LightM = LightM {
        kind: LightKindM::Directional {
            direction: v3_normalize(Vector3M { x: 0, y: -65536, z: -131072 }),
        },
        color: white,
        intensity: fx_mul(52429, brightness),
    };
    let point: LightM = LightM {
        kind: LightKindM::Point { position: Vector3M { x: -65536, y: -65536, z: -163840 } },
        color: white,
        intensity: fx_mul(406323, brightness),
    };
    SceneM {
        width: 0,
        height: 0,
        fov: 4587520,
        elements: seq![red_sphere, green_sphere, blue_sphere, plane],
        lights: seq![ambient, directional, point],
    }
}

/// Build the demo scene at the given pixel dimensions.
pub fn create_demo_scene(width: u32, height: u32, brightness: Fx, sphere_dx: Fx, sphere_dy: Fx, sphere_dz: Fx) -> (r:
    Scene)
    ensures
        r@ == (SceneM {
            width: width as int,
            height: height as int,
            ..demo_scene_m(brightness@, sphere_dx@, sphere_dy@, sphere_dz@)
        }),
{
    let white: Color = Color {
        red: Fx { raw: 65536 },
        green: Fx { raw: 65536 },
        blue: Fx { raw: 65536 },
    };
    let sphere_red: Element = Element::Sphere(
        Sphere {
            center: Vector3 {
                x: sphere_dx,
                y: Fx { raw: -32768 }.add(sphere_dy),
                z: Fx { raw: -294912 }.add(sphere_dz),
            },
            radius: Fx { raw: 65536 },
            material: Material {
                color: Color {
                    red: Fx { raw: 16711680 },
                    green: Fx { raw: 0 },
                    blue: Fx { raw: 0 },
                },
                albedo: Fx { raw: 65536 },
                specular: 50,
                reflectivity: Fx { raw: 58982 },
            },
        },
    );
    let sphere_green: Element = Element::Sphere(
        Sphere {
            center: Vector3 { x: Fx { raw: 131072 }, y: Fx { raw: 65536 }, z: Fx { raw: -170394 } },
            radius: Fx { raw: 65536 },
            material: Material {
                color: Color {
                    red: Fx { raw: 0 },
                    green: Fx { raw: 16711680 },
                    blue: Fx { raw: 0 },
                },
                albedo: Fx { raw: 65536 },
                specular: 50,
                reflectivity: Fx { raw: 0 },
            },
        },
    );
    let sphere_blue: Element = Element::Sphere(
        Sphere {
            center: Vector3 {
                x: Fx { raw: -196608 },
                y: Fx { raw: -65536 },
                z: Fx { raw: -360448 },
            },
            radius: Fx { raw: 65536 },
            material: Material {
                color: Color {
                    red: Fx { raw: 0 },
                    green: Fx { raw: 0 },
                    blue: Fx { raw: 16711680 },
                },
                albedo: Fx { raw: 65536 },
                specular: 10,
                reflectivity: Fx { raw: 13107 },
            },
        },
    );
    let plane: Element = Element::Plane(
        Plane {
            origin: Vector3 { x: Fx { raw: 0 }, y: Fx { raw: -262144 }, z: Fx { raw: 0 } },
            normal: Vector3 { x: Fx { raw: 0 }, y: Fx { raw: -65536 }, z: Fx { raw: 0 } },
            material: Material {
                color: Color {
                    red: Fx { raw: 3932160 },
                    green: Fx { raw: 3932160 },
                    blue: Fx { raw: 3932160 },
                },
                albedo: Fx { raw: 65536 },
                specular: -1,
                reflectivity: Fx { raw: 0 },
            },
        },
    );
    let ambient: Light = Light {
        kind: LightKind::Ambient,
        intensity: Fx { raw: 3932 }.mul(brightness),
        color: white,
    };
    let directional: Light = Light {
        kind: LightKind::Directional {
            direction: Vector3 {
                x: Fx { raw: 0 },
                y: Fx { raw: -65536 },
                z: Fx { raw: -131072 },
            }.normalize(),
        },
        intensity: Fx { raw: 52429 }.mul(brightness),
        color: white,
    };
    let point: Light = Light {
        kind: LightKind::Point {
            position: Vector3 { x: Fx { raw: -65536 }, y: Fx { raw: -65536 }, z: Fx { raw: -163840 } },
        },
        intensity: Fx { raw: 406323 }.mul(brightness),
        color: white,
    };
    let elements: Vec<Element> = vec![sphere_red, sphere_green, sphere_blue, plane];
    let lights: Vec<Light> = vec![ambient, directional, point];
    let scene: Scene = Scene { width, height, elements, fov: Fx { raw: 4587520 }, lights };
    proof {
        assert(scene@.elements =~= demo_scene_m(
            brightness@,
            sphere_dx@,
            sphere_dy@,
            sphere_dz@,
        ).elements);
        assert(scene@.lights =~= demo_scene_m(
            brightness@,
            sphere_dx@,
            sphere_dy@,
            sphere_dz@,
        ).lights);
    }
    scene
}

/// The three bytes of pixel `(x, y)`: the shaded nearest hit of the
/// camera ray, or the black background when nothing is hit.
pub open spec fn pixel_bytes(sc: SceneM, x: int, y: int) -> Seq<u8> {
    let ray: RayM = create_prime_spec(x, y, sc);
    match trace_spec(sc, ray) {
        Option::Some((i, d)) => {
            let c: ColorM = shade_spec(sc, ray, i, d, DEFAULT_RECURSION_DEPTH as nat);
            seq![byte_of(c.red) as u8, byte_of(c.green) as u8, byte_of(c.blue) as u8]
        },
        Option::None => seq![0u8, 0u8, 0u8],
    }
}

/// The buffer for the first `p` pixels in row-major order.
pub open spec fn render_upto(sc: SceneM, p: nat) -> Seq<u8>
    decreases p,
{
    if p == 0 {
        Seq::empty()
    } else {
        render_upto(sc, (p - 1) as nat) + pixel_bytes(
            sc,
            ((p - 1) as int) % sc.width,
            ((p - 1) as int) / sc.width,
        )
    }
}

/// The whole rendered buffer: `width * height` pixels, three bytes
/// each.
pub open spec fn render_spec(sc: SceneM) -> Seq<u8> {
    render_upto(sc, (sc.width * sc.height) as nat)
}

/// The buffer for `p` pixels holds exactly `3 * p` bytes.
pub proof fn lemma_render_upto_len(sc: SceneM, p: nat)
    ensures
        render_upto(sc, p).len() == 3 * p,
    decreases p,
{
    if p > 0 {
        lemma_render_upto_len(sc, (p - 1) as nat);
    }
}

/// A pixel whose camera ray hits no element gets exactly the black
/// background triple.
pub proof fn lemma_miss_is_background(sc: SceneM, x: int, y: int)
    requires
        trace_spec(sc, create_prime_spec(x, y, sc)) is None,
    ensures
        pixel_bytes(sc, x, y) == seq![0u8, 0u8, 0u8],
{
}

/// Rendering is deterministic: any two buffers that render the same
/// scene are byte-identical.
pub proof fn lemma_render_deterministic(sc: SceneM, first: Seq<u8>, second: Seq<u8>)
    requires
        first == render_spec(sc),
        second == render_spec(sc),
    ensures
        first == second,
{
}

/// Render the scene: for every pixel in row-major order, trace the
/// camera ray and append the three shaded (or background) bytes.
#[verifier::rlimit(100)]
pub fn render(scene: Scene) -> (image: Vec<u8>)
    ensures
        image@ == render_spec(scene@),
        image@.len() == 3 * (scene.width * scene.height),
{
    let mut image: Vec<u8> = Vec::new();
    let mut y: u32 = 0;
    while y < scene.height
        invariant
            y <= scene.height,
            image@ == render_upto(scene@, (y * scene.width) as nat),
        decreases scene.height - y,
    {
        let mut x: u32 = 0;
        while x < scene.width
            invariant
                x <= scene.width,
                y < scene.height,
                image@ == render_upto(scene@, (y * scene.width + x) as nat),
            decreases scene.width - x,
        {
            let ray: Ray = Ray::create_prime(x, y, &scene);
            let intersection: Option<Intersection> = scene.trace(&ray);
            let bytes: (u8, u8, u8) = match intersection {
                Some(inter) => get_color(&scene, &ray, inter, DEFAULT_RECURSION_DEPTH).quantize(),
                None => (0u8, 0u8, 0u8),
            };
            image.push(bytes.0);
            image.push(bytes.1);
            image.push(bytes.2);
            proof {
                let w: int = scene.width as int;
                let p: int = y * w + x;
                lemma_fundamental_div_mod_converse(p, w, y as int, x as int);
                assert(ray@ == create_prime_spec(x as int, y as int, scene@));
                match intersection {
                    Some(inter) => {
                        let cm: ColorM = shade_spec(
                            scene@,
                            ray@,
                            inter.element as int,
                            inter.distance@,
                            DEFAULT_RECURSION_DEPTH as nat,
                        );
                        lemma_byte_of_range(cm.red);
                        lemma_byte_of_range(cm.green);
                        lemma_byte_of_range(cm.blue);
                        assert(pixel_bytes(scene@, x as int, y as int) =~= seq![
                            bytes.0,
                            bytes.1,
                            bytes.2,
                        ]);
                    },
                    None => {
                        assert(pixel_bytes(scene@, x as int, y as int) =~= seq![
                            bytes.0,
                            bytes.1,
                            bytes.2,
                        ]);
                    },
                }
                assert(image@ =~= render_upto(scene@, (p + 1) as nat));
            }
            x = x + 1;
        }
        proof {
            assert((y + 1) * scene.width == y * scene.width + scene.width) by (nonlinear_arith);
        }
        y = y + 1;
    }
    proof {
        assert(scene.height * scene.width == scene.width * scene.height) by (nonlinear_arith);
        lemma_render_upto_len(scene@, (scene.width * scene.height) as nat);
    }
    image
}

} // verus!
