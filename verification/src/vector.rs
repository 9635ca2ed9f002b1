//! Three-component vectors over fixed-point scalars, used for
//! positions, directions and surface normals.

use vstd::prelude::*;
use crate::fixed::{Fx, abs_int, fx_add, fx_div, fx_mul, fx_neg, fx_sqrt, fx_sub};

verus! {

/// Mathematical model of a vector: three raw fixed-point values.
pub struct Vector3M {
    pub x: int,
    pub y: int,
    pub z: int,
}

/// A vector of three fixed-point scalars.
#[derive(Clone, Copy, Debug, PartialEq, Eq, Structural)]
pub struct Vector3 {
    pub x: Fx,
    pub y: Fx,
    pub z: Fx,
}

impl View for Vector3 {
    type V = Vector3M;

    open spec fn view(&self) -> Vector3M {
        Vector3M { x: self.x@, y: self.y@, z: self.z@ }
    }
}

/// Componentwise sum.
pub open spec fn v3_add(a: Vector3M, b: Vector3M) -> Vector3M {
    Vector3M { x: fx_add(a.x, b.x), y: fx_add(a.y, b.y), z: fx_add(a.z, b.z) }
}

/// Componentwise difference.
pub open spec fn v3_sub(a: Vector3M, b: Vector3M) -> Vector3M {
    Vector3M { x: fx_sub(a.x, b.x), y: fx_sub(a.y, b.y), z: fx_sub(a.z, b.z) }
}

/// Componentwise negation.
pub open spec fn v3_neg(a: Vector3M) -> Vector3M {
    Vector3M { x: fx_neg(a.x), y: fx_neg(a.y), z: fx_neg(a.z) }
}

/// Scaling by a fixed-point factor.
pub open spec fn v3_scale(a: Vector3M, k: int) -> Vector3M {
    Vector3M { x: fx_mul(a.x, k), y: fx_mul(a.y, k), z: fx_mul(a.z, k) }
}

/// Dot product.
pub open spec fn v3_dot(a: Vector3M, b: Vector3M) -> int {
    fx_add(fx_add(fx_mul(a.x, b.x), fx_mul(a.y, b.y)), fx_mul(a.z, b.z))
}

/// Normalization: divide by the length; the zero vector stays zero.
pub open spec fn v3_normalize(a: Vector3M) -> Vector3M {
    let len: int = fx_sqrt(v3_dot(a, a));
    if len == 0 {
        Vector3M { x: 0, y: 0, z: 0 }
    } else {
        Vector3M { x: fx_div(a.x, len), y: fx_div(a.y, len), z: fx_div(a.z, len) }
    }
}

/// A fixed-point square is never negative.
pub proof fn lemma_fx_square_nonneg(a: int)
    ensures
        fx_mul(a, a) >= 0,
{
    assert(a * a >= 0) by (nonlinear_arith);
    assert(abs_int(a * a) / 65536 >= 0);
}

/// A vector's dot product with itself is never negative.
pub proof fn lemma_v3_dot_self_nonneg(a: Vector3M)
    ensures
        v3_dot(a, a) >= 0,
{
    lemma_fx_square_nonneg(a.x);
    lemma_fx_square_nonneg(a.y);
    lemma_fx_square_nonneg(a.z);
}

impl Vector3 {
    /// The zero vector.
    pub fn zero() -> (r: Vector3)
        ensures
            r@ == (Vector3M { x: 0, y: 0, z: 0 }),
    {
        Vector3 { x: Fx { raw: 0 }, y: Fx { raw: 0 }, z: Fx { raw: 0 } }
    }

    /// Componentwise sum.
    pub fn add(self, o: Vector3) -> (r: Vector3)
        ensures
            r@ == v3_add(self@, o@),
    {
        Vector3 { x: self.x.add(o.x), y: self.y.add(o.y), z: self.z.add(o.z) }
    }

    /// Componentwise difference.
    pub fn sub(self, o: Vector3) -> (r: Vector3)
        ensures
            r@ == v3_sub(self@, o@),
    {
        Vector3 { x: self.x.sub(o.x), y: self.y.sub(o.y), z: self.z.sub(o.z) }
    }

    /// Componentwise negation.
    pub fn neg(self) -> (r: Vector3)
        ensures
            r@ == v3_neg(self@),
    {
        Vector3 { x: self.x.neg(), y: self.y.neg(), z: self.z.neg() }
    }

    /// Scaling by a fixed-point factor.
    pub fn scale(self, k: Fx) -> (r: Vector3)
        ensures
            r@ == v3_scale(self@, k@),
    {
        Vector3 { x: self.x.mul(k), y: self.y.mul(k), z: self.z.mul(k) }
    }

    /// Dot product.
    pub fn dot(self, o: Vector3) -> (r: Fx)
        ensures
            r@ == v3_dot(self@, o@),
    {
        self.x.mul(o.x).add(self.y.mul(o.y)).add(self.z.mul(o.z))
    }

    /// Normalization: divide by the length; the zero vector stays zero.
    pub fn normalize(self) -> (r: Vector3)
        ensures
            r@ == v3_normalize(self@),
    {
        let d2: Fx = self.dot(self);
        proof {
            lemma_v3_dot_self_nonneg(self@);
        }
        let len: Fx = d2.sqrt();
        if len.raw == 0 {
            Vector3::zero()
        } else {
            Vector3 { x: self.x.div(len), y: self.y.div(len), z: self.z.div(len) }
        }
    }
}

} // verus!
