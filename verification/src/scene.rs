//! The scene: dimensions, field of view, elements and lights, with
//! construction-time validation and nearest-hit tracing.

use vstd::prelude::*;
use crate::fixed::Fx;
use crate::scene::elements::{
    Element, ElementM, Intersectable, Material, MaterialM, elem_intersect_m,
};
use crate::scene::helpers::{Intersection, Ray, RayM};
use crate::scene::lights::{Light, LightKind, LightKindM, LightM};

pub mod color;
pub mod elements;
pub mod helpers;
pub mod lights;

verus! {

/// Mathematical model of a scene.
pub struct SceneM {
    pub width: int,
    pub height: int,
    pub fov: int,
    pub elements: Seq<ElementM>,
    pub lights: Seq<LightM>,
}

/// A scene: pixel dimensions, vertical field of view in degrees, and
/// the ordered element and light lists.
pub struct Scene {
    pub width: u32,
    pub height: u32,
    pub fov: Fx,
    pub elements: Vec<Element>,
    pub lights: Vec<Light>,
}

impl View for Scene {
    type V = SceneM;

    open spec fn view(&self) -> SceneM {
        SceneM {
            width: self.width as int,
            height: self.height as int,
            fov: self.fov@,
            elements: self.elements@.map_values(|e: Element| e@),
            lights: self.lights@.map_values(|l: Light| l@),
        }
    }
}

/// Why a scene was rejected at validation time.
#[derive(Clone, Copy, Debug, PartialEq, Eq, Structural)]
pub enum SceneError {
    /// Dimensions, field of view, element count or a material range is
    /// out of bounds.
    Configuration,
    /// A plane normal or a directional light direction is the zero
    /// vector.
    DegenerateGeometry,
}

/// Model of an optional nearest hit: element index and distance.
pub open spec fn opt_hit(r: Option<Intersection>) -> Option<(int, int)> {
    match r {
        Option::None => Option::None,
        Option::Some(i) => Option::Some((i.element as int, i.distance@)),
    }
}

/// The nearest hit among the first `n` elements, scanning in list
/// order and keeping the strictly smaller distance, so the earlier of
/// two exactly equal hits wins.
pub open spec fn trace_upto(sc: SceneM, ray: RayM, n: nat) -> Option<(int, int)>
    decreases n,
{
    if n == 0 {
        Option::None
    } else {
        let prev: Option<(int, int)> = trace_upto(sc, ray, (n - 1) as nat);
        match elem_intersect_m(sc.elements[n - 1], ray) {
            Option::None => prev,
            Option::Some(d) => match prev {
                Option::None => Option::Some((n - 1, d)),
                Option::Some((pi, pd)) => if d < pd {
                    Option::Some((n - 1, d))
                } else {
                    Option::Some((pi, pd))
                },
            },
        }
    }
}

/// The nearest hit among all elements of the scene.
pub open spec fn trace_spec(sc: SceneM, ray: RayM) -> Option<(int, int)> {
    trace_upto(sc, ray, sc.elements.len())
}

/// A material's ranges are in order: albedo in (0, 1], specular a
/// nonnegative exponent or the -1 sentinel, reflectivity in [0, 1].
pub open spec fn material_ok(m: MaterialM) -> bool {
    &&& 0 < m.albedo <= 65536
    &&& m.specular == -1 || m.specular >= 0
    &&& 0 <= m.reflectivity <= 65536
}

/// Configuration checks on one element.
pub open spec fn elem_config_ok(e: ElementM) -> bool {
    match e {
        ElementM::Sphere(s) => s.radius > 0 && material_ok(s.material),
        ElementM::Plane(p) => material_ok(p.material),
    }
}

/// Geometry checks on one element: a plane normal must not be zero.
pub open spec fn elem_geometry_ok(e: ElementM) -> bool {
    match e {
        ElementM::Sphere(_) => true,
        ElementM::Plane(p) => !(p.normal.x == 0 && p.normal.y == 0 && p.normal.z == 0),
    }
}

/// Configuration checks on one light.
pub open spec fn light_config_ok(l: LightM) -> bool {
    l.intensity >= 0
}

/// Geometry checks on one light: a directional light's direction must
/// not be zero.
pub open spec fn light_geometry_ok(l: LightM) -> bool {
    match l.kind {
        LightKindM::Directional { direction } => !(direction.x == 0 && direction.y == 0
            && direction.z == 0),
        _ => true,
    }
}

/// Configuration soundness of a whole scene: positive dimensions, a
/// field of view strictly inside (0, 180) degrees, at least one
/// element, and every material range in order.
pub open spec fn scene_config_ok(sc: SceneM) -> bool {
    &&& 0 < sc.width
    &&& 0 < sc.height
    &&& 0 < sc.fov < 11796480
    &&& sc.elements.len() > 0
    &&& forall|i: int| 0 <= i < sc.elements.len() ==> elem_config_ok(#[trigger] sc.elements[i])
    &&& forall|i: int| 0 <= i < sc.lights.len() ==> light_config_ok(#[trigger] sc.lights[i])
}

/// Geometric soundness of a whole scene: no zero normal and no zero
/// light direction.
pub open spec fn scene_geometry_ok(sc: SceneM) -> bool {
    &&& forall|i: int| 0 <= i < sc.elements.len() ==> elem_geometry_ok(#[trigger] sc.elements[i])
    &&& forall|i: int| 0 <= i < sc.lights.len() ==> light_geometry_ok(#[trigger] sc.lights[i])
}

/// A scene fit for rendering.
pub open spec fn scene_valid(sc: SceneM) -> bool {
    scene_config_ok(sc) && scene_geometry_ok(sc)
}

/// Material range checks.
fn material_ok_exec(m: &Material) -> (r: bool)
    ensures
        r == material_ok(m@),
{
    m.albedo.raw > 0 && m.albedo.raw <= 65536 && (m.specular == -1 || m.specular >= 0)
        && m.reflectivity.raw >= 0 && m.reflectivity.raw <= 65536
}

impl Scene {
    /// Find the nearest intersection of `ray` with any element: a
    /// linear scan keeping the minimum reported distance.
    pub fn trace(&self, ray: &Ray) -> (r: Option<Intersection>)
        ensures
            opt_hit(r) == trace_spec(self@, ray@),
            r matches Some(i) ==> i.element < self.elements.len(),
    {
        let mut intersection: Option<Intersection> = None;
        let mut idx: usize = 0;
        while idx < self.elements.len()
            invariant
                idx <= self.elements.len(),
                opt_hit(intersection) == trace_upto(self@, ray@, idx as nat),
                intersection matches Some(i) ==> i.element < idx,
            decreases self.elements.len() - idx,
        {
            let element: &Element = &self.elements[idx];
            if let Some(dist) = element.intersect(ray) {
                let better: bool = match &intersection {
                    None => true,
                    Some(cur) => dist.raw < cur.distance.raw,
                };
                if better {
                    intersection = Some(Intersection { distance: dist, element: idx });
                }
            }
            idx = idx + 1;
        }
        intersection
    }

    /// Configuration checks over the whole scene.
    fn config_ok(&self) -> (r: bool)
        ensures
            r == scene_config_ok(self@),
    {
        if !(self.width > 0 && self.height > 0 && self.fov.raw > 0 && self.fov.raw < 11796480
            && self.elements.len() > 0) {
            return false;
        }
        let mut i: usize = 0;
        while i < self.elements.len()
            invariant
                i <= self.elements.len(),
                self.width > 0,
                self.height > 0,
                0 < self.fov.raw < 11796480,
                self.elements.len() > 0,
                forall|j: int| 0 <= j < i ==> elem_config_ok(#[trigger] self@.elements[j]),
            decreases self.elements.len() - i,
        {
            let ok: bool = match &self.elements[i] {
                Element::Sphere(s) => s.radius.raw > 0 && material_ok_exec(&s.material),
                Element::Plane(p) => material_ok_exec(&p.material),
            };
            if !ok {
                assert(!elem_config_ok(self@.elements[i as int]));
                return false;
            }
            i = i + 1;
        }
        let mut i: usize = 0;
        while i < self.lights.len()
            invariant
                i <= self.lights.len(),
                self.width > 0,
                self.height > 0,
                0 < self.fov.raw < 11796480,
                self.elements.len() > 0,
                forall|j: int| 0 <= j < self@.elements.len() ==> elem_config_ok(
                    #[trigger] self@.elements[j],
                ),
                forall|j: int| 0 <= j < i ==> light_config_ok(#[trigger] self@.lights[j]),
            decreases self.lights.len() - i,
        {
            if !(self.lights[i].intensity.raw >= 0) {
                assert(!light_config_ok(self@.lights[i as int]));
                return false;
            }
            i = i + 1;
        }
        true
    }

    /// Geometry checks over the whole scene.
    fn geometry_ok(&self) -> (r: bool)
        ensures
            r == scene_geometry_ok(self@),
    {
        let mut i: usize = 0;
        while i < self.elements.len()
            invariant
                i <= self.elements.len(),
                forall|j: int| 0 <= j < i ==> elem_geometry_ok(#[trigger] self@.elements[j]),
            decreases self.elements.len() - i,
        {
            let ok: bool = match &self.elements[i] {
                Element::Sphere(_) => true,
                Element::Plane(p) => !(p.normal.x.raw == 0 && p.normal.y.raw == 0
                    && p.normal.z.raw == 0),
            };
            if !ok {
                assert(!elem_geometry_ok(self@.elements[i as int]));
                return false;
            }
            i = i + 1;
        }
        let mut i: usize = 0;
        while i < self.lights.len()
            invariant
                i <= self.lights.len(),
                forall|j: int| 0 <= j < self@.elements.len() ==> elem_geometry_ok(
                    #[trigger] self@.elements[j],
                ),
                forall|j: int| 0 <= j < i ==> light_geometry_ok(#[trigger] self@.lights[j]),
            decreases self.lights.len() - i,
        {
            let ok: bool = match &self.lights[i].kind {
                LightKind::Directional { direction } => !(direction.x.raw == 0
                    && direction.y.raw == 0 && direction.z.raw == 0),
                _ => true,
            };
            if !ok {
                assert(!light_geometry_ok(self@.lights[i as int]));
                return false;
            }
            i = i + 1;
        }
        true
    }

    /// Validate a scene before rendering: configuration faults are
    /// reported first, then degenerate geometry.
    pub fn validate(&self) -> (r: Result<(), SceneError>)
        ensures
            r is Ok <==> scene_valid(self@),
            r == Err::<(), SceneError>(SceneError::Configuration) <==> !scene_config_ok(self@),
            r == Err::<(), SceneError>(SceneError::DegenerateGeometry) <==> (scene_config_ok(self@)
                && !scene_geometry_ok(self@)),
    {
        if !self.config_ok() {
            Err(SceneError::Configuration)
        } else if !self.geometry_ok() {
            Err(SceneError::DegenerateGeometry)
        } else {
            Ok(())
        }
    }
}

} // verus!
