//! Geometric primitives — spheres and one-sided planes — and the
//! closed union over them.

use vstd::prelude::*;
use crate::fixed::{Fx, fx_add, fx_div, fx_mul, fx_sqrt, fx_sub};
use crate::scene::color::{Color, ColorM};
use crate::scene::helpers::{Ray, RayM};
use crate::vector::{Vector3, Vector3M, v3_dot, v3_neg, v3_normalize, v3_sub};

verus! {

/// Mathematical model of a material.
pub struct MaterialM {
    pub color: ColorM,
    pub albedo: int,
    pub specular: int,
    pub reflectivity: int,
}

/// A surface material.  `specular` is a plain integer exponent, with
/// -1 meaning "no specular highlight".
#[derive(Clone, Copy, Debug)]
pub struct Material {
    pub color: Color,
    pub albedo: Fx,
    pub specular: i64,
    pub reflectivity: Fx,
}

impl View for Material {
    type V = MaterialM;

    open spec fn view(&self) -> MaterialM {
        MaterialM {
            color: self.color@,
            albedo: self.albedo@,
            specular: self.specular as int,
            reflectivity: self.reflectivity@,
        }
    }
}

/// Mathematical model of a sphere.
pub struct SphereM {
    pub center: Vector3M,
    pub radius: int,
    pub material: MaterialM,
}

/// A sphere.
#[derive(Clone, Copy, Debug)]
pub struct Sphere {
    pub center: Vector3,
    pub radius: Fx,
    pub material: Material,
}

impl View for Sphere {
    type V = SphereM;

    open spec fn view(&self) -> SphereM {
        SphereM { center: self.center@, radius: self.radius@, material: self.material@ }
    }
}

/// Mathematical model of a plane.
pub struct PlaneM {
    pub origin: Vector3M,
    pub normal: Vector3M,
    pub material: MaterialM,
}

/// A one-sided infinite plane.
#[derive(Clone, Copy, Debug)]
pub struct Plane {
    pub origin: Vector3,
    pub normal: Vector3,
    pub material: Material,
}

impl View for Plane {
    type V = PlaneM;

    open spec fn view(&self) -> PlaneM {
        PlaneM { origin: self.origin@, normal: self.normal@, material: self.material@ }
    }
}

/// Mathematical model of an element.
pub enum ElementM {
    Sphere(SphereM),
    Plane(PlaneM),
}

/// A scene element: the closed union over the primitive kinds.
#[derive(Clone, Copy, Debug)]
pub enum Element {
    Sphere(Sphere),
    Plane(Plane),
}

impl View for Element {
    type V = ElementM;

    open spec fn view(&self) -> ElementM {
        match *self {
            Element::Sphere(s) => ElementM::Sphere(s@),
            Element::Plane(p) => ElementM::Plane(p@),
        }
    }
}

/// Model of an optional fixed-point distance.
pub open spec fn opt_dist(r: Option<Fx>) -> Option<int> {
    match r {
        Option::None => Option::None,
        Option::Some(d) => Option::Some(d@),
    }
}

/// Squared distance from the sphere's center to the ray's line,
/// computed as `|L|^2 - (L . dir)^2`.
pub open spec fn sphere_gap_sq(s: SphereM, ray: RayM) -> int {
    let l: Vector3M = v3_sub(s.center, ray.origin);
    let tca: int = v3_dot(l, ray.direction);
    fx_sub(v3_dot(l, l), fx_mul(tca, tca))
}

/// The sphere's squared radius.
pub open spec fn sphere_radius_sq(s: SphereM) -> int {
    fx_mul(s.radius, s.radius)
}

/// Ray/sphere intersection: the nearer of the two chord endpoints,
/// unless the ray's line misses the sphere or the sphere lies wholly
/// behind the origin.
pub open spec fn sphere_intersect_m(s: SphereM, ray: RayM) -> Option<int> {
    let l: Vector3M = v3_sub(s.center, ray.origin);
    let tca: int = v3_dot(l, ray.direction);
    let gap_sq: int = sphere_gap_sq(s, ray);
    if gap_sq > sphere_radius_sq(s) {
        Option::None
    } else {
        let thc: int = fx_sqrt(fx_sub(sphere_radius_sq(s), gap_sq));
        let t0: int = fx_sub(tca, thc);
        let t1: int = fx_add(tca, thc);
        if t0 < 0 && t1 < 0 {
            Option::None
        } else if t0 < t1 {
            Option::Some(t0)
        } else {
            Option::Some(t1)
        }
    }
}

/// Outward normal of a sphere at a surface point.
pub open spec fn sphere_normal_m(s: SphereM, hit: Vector3M) -> Vector3M {
    v3_normalize(v3_sub(hit, s.center))
}

/// Ray/plane intersection.  The plane is one-sided: a hit is only
/// reported when the ray runs with the configured normal, that is,
/// approaches the face the normal points away from.
pub open spec fn plane_intersect_m(p: PlaneM, ray: RayM) -> Option<int> {
    let denom: int = v3_dot(p.normal, ray.direction);
    if denom > 0 {
        let v: Vector3M = v3_sub(p.origin, ray.origin);
        let d: int = fx_div(v3_dot(v, p.normal), denom);
        if d >= 0 {
            Option::Some(d)
        } else {
            Option::None
        }
    } else {
        Option::None
    }
}

/// The normal a plane reports: the negation of the configured one, so
/// the visible face points back toward the viewer.
pub open spec fn plane_normal_m(p: PlaneM) -> Vector3M {
    v3_neg(p.normal)
}

/// Intersection, dispatched over the element kinds.
pub open spec fn elem_intersect_m(e: ElementM, ray: RayM) -> Option<int> {
    match e {
        ElementM::Sphere(s) => sphere_intersect_m(s, ray),
        ElementM::Plane(p) => plane_intersect_m(p, ray),
    }
}

/// Surface normal, dispatched over the element kinds.
pub open spec fn elem_normal_m(e: ElementM, hit: Vector3M) -> Vector3M {
    match e {
        ElementM::Sphere(s) => sphere_normal_m(s, hit),
        ElementM::Plane(p) => plane_normal_m(p),
    }
}

/// Material, dispatched over the element kinds.
pub open spec fn elem_material(e: ElementM) -> MaterialM {
    match e {
        ElementM::Sphere(s) => s.material,
        ElementM::Plane(p) => p.material,
    }
}

/// A ray whose line passes the sphere's center wider than the radius
/// reports no hit.
pub proof fn lemma_sphere_miss(s: SphereM, ray: RayM)
    requires
        sphere_gap_sq(s, ray) > sphere_radius_sq(s),
    ensures
        sphere_intersect_m(s, ray) is None,
{
}

/// A ray approaching a plane from the side its normal points toward
/// never reports a hit, although the infinite plane is geometrically
/// symmetric.
pub proof fn lemma_plane_one_sided(p: PlaneM, ray: RayM)
    requires
        v3_dot(p.normal, ray.direction) <= 0,
    ensures
        plane_intersect_m(p, ray) is None,
{
}

/// Uniform intersection and surface-normal operations over the
/// primitives.
pub trait Intersectable {
    /// Model of the reported intersection distance.
    spec fn intersect_spec(&self, ray: RayM) -> Option<int>;

    /// Model of the reported surface normal.
    spec fn normal_spec(&self, hit_point: Vector3M) -> Vector3M;

    /// Distance along the ray to the nearest hit, if any.
    fn intersect(&self, ray: &Ray) -> (r: Option<Fx>)
        ensures
            opt_dist(r) == self.intersect_spec(ray@),
    ;

    /// Surface normal at a hit point.
    fn surface_normal(&self, hit_point: &Vector3) -> (r: Vector3)
        ensures
            r@ == self.normal_spec(hit_point@),
    ;
}

impl Intersectable for Sphere {
    open spec fn intersect_spec(&self, ray: RayM) -> Option<int> {
        sphere_intersect_m(self@, ray)
    }

    open spec fn normal_spec(&self, hit_point: Vector3M) -> Vector3M {
        sphere_normal_m(self@, hit_point)
    }

    fn intersect(&self, ray: &Ray) -> (r: Option<Fx>) {
        let line_to_center: Vector3 = self.center.sub(ray.origin);
        let ray_section_length: Fx = line_to_center.dot(ray.direction);
        let connection_squared: Fx = line_to_center.dot(line_to_center).sub(
            ray_section_length.mul(ray_section_length),
        );
        let radius_squared: Fx = self.radius.mul(self.radius);
        if connection_squared.raw > radius_squared.raw {
            return None;
        }
        let thic: Fx = radius_squared.sub(connection_squared).sqrt();
        let distance_intersection1: Fx = ray_section_length.sub(thic);
        let distance_intersection2: Fx = ray_section_length.add(thic);
        if distance_intersection1.raw < 0 && distance_intersection2.raw < 0 {
            return None;
        }
        if distance_intersection1.raw < distance_intersection2.raw {
            Some(distance_intersection1)
        } else {
            Some(distance_intersection2)
        }
    }

    fn surface_normal(&self, hit_point: &Vector3) -> (r: Vector3) {
        (*hit_point).sub(self.center).normalize()
    }
}

impl Intersectable for Plane {
    open spec fn intersect_spec(&self, ray: RayM) -> Option<int> {
        plane_intersect_m(self@, ray)
    }

    open spec fn normal_spec(&self, hit_point: Vector3M) -> Vector3M {
        plane_normal_m(self@)
    }

    fn intersect(&self, ray: &Ray) -> (r: Option<Fx>) {
        let denom: Fx = self.normal.dot(ray.direction);
        if denom.raw > 0 {
            let v: Vector3 = self.origin.sub(ray.origin);
            let distance: Fx = v.dot(self.normal).div(denom);
            if distance.raw >= 0 {
                return Some(distance);
            }
        }
        None
    }

    fn surface_normal(&self, _hit_point: &Vector3) -> (r: Vector3) {
        self.normal.neg()
    }
}

impl Intersectable for Element {
    open spec fn intersect_spec(&self, ray: RayM) -> Option<int> {
        elem_intersect_m(self@, ray)
    }

    open spec fn normal_spec(&self, hit_point: Vector3M) -> Vector3M {
        elem_normal_m(self@, hit_point)
    }

    fn intersect(&self, ray: &Ray) -> (r: Option<Fx>) {
        match self {
            Element::Sphere(s) => s.intersect(ray),
            Element::Plane(p) => p.intersect(ray),
        }
    }

    fn surface_normal(&self, hit_point: &Vector3) -> (r: Vector3) {
        match self {
            Element::Sphere(s) => s.surface_normal(hit_point),
            Element::Plane(p) => p.surface_normal(hit_point),
        }
    }
}

impl Element {
    /// The element's base color.
    pub fn color(&self) -> (r: Color)
        ensures
            r@ == elem_material(self@).color,
    {
        match self {
            Element::Sphere(s) => s.material.color,
            Element::Plane(p) => p.material.color,
        }
    }

    /// The element's diffuse reflectance coefficient.
    pub fn albedo(&self) -> (r: Fx)
        ensures
            r@ == elem_material(self@).albedo,
    {
        match self {
            Element::Sphere(s) => s.material.albedo,
            Element::Plane(p) => p.material.albedo,
        }
    }

    /// The element's specular exponent, -1 meaning none.
    pub fn specular(&self) -> (r: i64)
        ensures
            r as int == elem_material(self@).specular,
    {
        match self {
            Element::Sphere(s) => s.material.specular,
            Element::Plane(p) => p.material.specular,
        }
    }

    /// The element's mirror reflectivity.
    pub fn reflectivity(&self) -> (r: Fx)
        ensures
            r@ == elem_material(self@).reflectivity,
    {
        match self {
            Element::Sphere(s) => s.material.reflectivity,
            Element::Plane(p) => p.material.reflectivity,
        }
    }
}

} // verus!
