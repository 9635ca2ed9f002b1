//! Rays, intersections, and the per-pixel camera ray.

use vstd::prelude::*;
use crate::fixed::{Fx, fx_add, fx_div, fx_mul, fx_sub, tan_approx};
use crate::scene::{Scene, SceneM};
use crate::vector::{Vector3, Vector3M, v3_normalize};

verus! {

/// Mathematical model of a ray.
pub struct RayM {
    pub origin: Vector3M,
    pub direction: Vector3M,
}

/// A ray: an origin and a direction.  Every construction path
/// normalizes the direction.
#[derive(Clone, Copy, Debug)]
pub struct Ray {
    pub origin: Vector3,
    pub direction: Vector3,
}

impl View for Ray {
    type V = RayM;

    open spec fn view(&self) -> RayM {
        RayM { origin: self.origin@, direction: self.direction@ }
    }
}

/// The nearest hit found along a ray: the distance, and the index of
/// the hit element in the scene's element list.
#[derive(Clone, Copy, Debug)]
pub struct Intersection {
    pub distance: Fx,
    pub element: usize,
}

/// Degrees to radians: division by 57.296.
pub open spec fn radians_approx(x: int) -> int {
    fx_div(x, 3755147)
}

/// Degrees to radians: division by 57.296.
pub fn to_radians(x: Fx) -> (r: Fx)
    ensures
        r@ == radians_approx(x@),
{
    x.div(Fx { raw: 3755147 })
}

/// The camera ray through pixel `(x, y)`: pinhole camera at the
/// origin looking down the negative Z axis, with a vertical field of
/// view of `fov` degrees.
#[verifier::opaque]
pub open spec fn create_prime_spec(x: int, y: int, sc: SceneM) -> RayM {
    let fov_adj: int = tan_approx(fx_div(radians_approx(sc.fov), 131072));
    let w: int = sc.width * 65536;
    let h: int = sc.height * 65536;
    let aspect: int = fx_div(w, h);
    let vx: int = fx_mul(
        fx_mul(fx_sub(fx_mul(fx_div(fx_add(x * 65536, 32768), w), 131072), 65536), aspect),
        fov_adj,
    );
    let vy: int = fx_mul(fx_sub(65536, fx_mul(fx_div(fx_add(y * 65536, 32768), h), 131072)), fov_adj);
    RayM {
        origin: Vector3M { x: 0, y: 0, z: 0 },
        direction: v3_normalize(Vector3M { x: vx, y: vy, z: -65536 }),
    }
}

impl Ray {
    /// Build the camera ray through pixel `(x, y)`.
    pub fn create_prime(x: u32, y: u32, scene: &Scene) -> (r: Ray)
        ensures
            r@ == create_prime_spec(x as int, y as int, scene@),
    {
        proof {
            reveal(create_prime_spec);
        }
        let fov_adjustment: Fx = to_radians(scene.fov).div(Fx { raw: 131072 }).tan();
        let w: Fx = Fx::from_u32(scene.width);
        let h: Fx = Fx::from_u32(scene.height);
        let aspect_ratio: Fx = w.div(h);
        let viewport_x: Fx = Fx::from_u32(x).add(Fx { raw: 32768 }).div(w).mul(
            Fx { raw: 131072 },
        ).sub(Fx { raw: 65536 }).mul(aspect_ratio).mul(fov_adjustment);
        let viewport_y: Fx = Fx { raw: 65536 }.sub(
            Fx::from_u32(y).add(Fx { raw: 32768 }).div(h).mul(Fx { raw: 131072 }),
        ).mul(fov_adjustment);
        Ray {
            origin: Vector3::zero(),
            direction: Vector3 { x: viewport_x, y: viewport_y, z: Fx { raw: -65536 } }.normalize(),
        }
    }
}

} // verus!
