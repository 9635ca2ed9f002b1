//! Fixed-point scalars.
//!
//! An [`Fx`] stores the real number `raw / 65536` in an `i64`.  All
//! operations are total: instead of overflowing they saturate at the
//! `i64` range, and division by zero yields zero.  Each executable
//! operation is specified exactly by a spec function over the raw
//! integer value.

use vstd::prelude::*;

verus! {

/// Number of raw units per 1.0.
pub const FX_ONE: i64 = 65536;

/// A fixed-point scalar: the real number `raw / 65536`.
#[derive(Clone, Copy, Debug, PartialEq, Eq, Structural)]
pub struct Fx {
    pub raw: i64,
}

impl View for Fx {
    type V = int;

    open spec fn view(&self) -> int {
        self.raw as int
    }
}

/// Saturate an unbounded integer into the `i64` range.
pub open spec fn sat64(x: int) -> int {
    if x > i64::MAX {
        i64::MAX as int
    } else if x < i64::MIN {
        i64::MIN as int
    } else {
        x
    }
}

/// Absolute value.
pub open spec fn abs_int(x: int) -> int {
    if x < 0 {
        -x
    } else {
        x
    }
}

/// Division rounding toward zero, as hardware division does.
/// Meaningful only for `b != 0`.
pub open spec fn tdiv(a: int, b: int) -> int
    recommends
        b != 0,
{
    if (a >= 0) == (b >= 0) {
        abs_int(a) / abs_int(b)
    } else {
        -(abs_int(a) / abs_int(b))
    }
}

/// Saturating fixed-point addition.
pub open spec fn fx_add(a: int, b: int) -> int {
    sat64(a + b)
}

/// Saturating fixed-point subtraction.
pub open spec fn fx_sub(a: int, b: int) -> int {
    sat64(a - b)
}

/// Saturating fixed-point negation.
pub open spec fn fx_neg(a: int) -> int {
    sat64(-a)
}

/// Saturating fixed-point multiplication: `(a * b) / 65536`, rounded
/// toward zero.
pub open spec fn fx_mul(a: int, b: int) -> int {
    sat64(tdiv(a * b, FX_ONE as int))
}

/// Saturating fixed-point division: `(a * 65536) / b`, rounded toward
/// zero; zero when the divisor is zero.
pub open spec fn fx_div(a: int, b: int) -> int {
    if b == 0 {
        0
    } else {
        sat64(tdiv(a * (FX_ONE as int), b))
    }
}

/// Fixed-point division by a plain positive integer.
pub open spec fn fx_div_int(a: int, k: int) -> int
    recommends
        k > 0,
{
    sat64(tdiv(a, k))
}

/// `r` is the integer square root of `x`.
pub open spec fn is_isqrt(x: int, r: int) -> bool {
    0 <= r && r * r <= x && x < (r + 1) * (r + 1)
}

/// Fixed-point square root of a nonnegative `a`: the integer square
/// root of `a * 65536`.
pub open spec fn fx_sqrt(a: int) -> int
    recommends
        a >= 0,
{
    choose|r: int| #[trigger] is_isqrt(a * (FX_ONE as int), r)
}

/// Fixed-point power with a plain nonnegative integer exponent.
pub open spec fn fx_pow(b: int, n: nat) -> int
    decreases n,
{
    if n == 0 {
        FX_ONE as int
    } else {
        fx_mul(fx_pow(b, (n - 1) as nat), b)
    }
}

/// Saturate an `i128` into the `i64` range.
fn sat_i128(x: i128) -> (r: i64)
    ensures
        r as int == sat64(x as int),
{
    if x > i64::MAX as i128 {
        i64::MAX
    } else if x < i64::MIN as i128 {
        i64::MIN
    } else {
        x as i64
    }
}

/// Magnitude of an `i64`, exact even for `i64::MIN`.
fn mag_of(a: i64) -> (m: u128)
    ensures
        m as int == abs_int(a as int),
{
    if a >= 0 {
        a as u128
    } else {
        (-(a as i128)) as u128
    }
}

/// Rebuild a saturated signed value from a sign and a magnitude.
fn from_sign_mag(neg: bool, m: u128) -> (r: i64)
    ensures
        r as int == sat64(
            if neg {
                -(m as int)
            } else {
                m as int
            },
        ),
{
    if neg {
        if m >= 9223372036854775808u128 {
            i64::MIN
        } else {
            -(m as i64)
        }
    } else {
        if m > i64::MAX as u128 {
            i64::MAX
        } else {
            m as i64
        }
    }
}

/// Sign and magnitude of a product.
proof fn lemma_mul_abs(a: int, b: int)
    ensures
        abs_int(a * b) == abs_int(a) * abs_int(b),
        ((a < 0) != (b < 0)) ==> a * b <= 0,
        ((a < 0) == (b < 0)) ==> a * b >= 0,
{
    if a >= 0 && b >= 0 {
        assert(a * b >= 0) by (nonlinear_arith)
            requires
                a >= 0,
                b >= 0,
        ;
    } else if a < 0 && b < 0 {
        assert(a * b >= 0 && (-a) * (-b) == a * b) by (nonlinear_arith)
            requires
                a < 0,
                b < 0,
        ;
    } else if a < 0 && b >= 0 {
        assert(a * b <= 0 && (-a) * b == -(a * b)) by (nonlinear_arith)
            requires
                a < 0,
                b >= 0,
        ;
    } else {
        assert(a * b <= 0 && a * (-b) == -(a * b)) by (nonlinear_arith)
            requires
                a >= 0,
                b < 0,
        ;
    }
}

impl Fx {
    /// The scalar zero.
    pub fn zero() -> (r: Fx)
        ensures
            r.raw == 0,
    {
        Fx { raw: 0 }
    }

    /// The value `v`, saturated into the representable range.
    pub fn from_int(v: i64) -> (r: Fx)
        ensures
            r@ == sat64(v * (FX_ONE as int)),
    {
        let wide: i128 = (v as i128) * 65536i128;
        Fx { raw: sat_i128(wide) }
    }

    /// The value of a pixel count.
    pub fn from_u32(v: u32) -> (r: Fx)
        ensures
            r@ == v * (FX_ONE as int),
    {
        Fx { raw: (v as i64) * FX_ONE }
    }

    /// Saturating addition.
    pub fn add(self, o: Fx) -> (r: Fx)
        ensures
            r@ == fx_add(self@, o@),
    {
        let wide: i128 = self.raw as i128 + o.raw as i128;
        Fx { raw: sat_i128(wide) }
    }

    /// Saturating subtraction.
    pub fn sub(self, o: Fx) -> (r: Fx)
        ensures
            r@ == fx_sub(self@, o@),
    {
        let wide: i128 = self.raw as i128 - o.raw as i128;
        Fx { raw: sat_i128(wide) }
    }

    /// Saturating negation.
    pub fn neg(self) -> (r: Fx)
        ensures
            r@ == fx_neg(self@),
    {
        let wide: i128 = -(self.raw as i128);
        Fx { raw: sat_i128(wide) }
    }

    /// Saturating fixed-point multiplication.
    pub fn mul(self, o: Fx) -> (r: Fx)
        ensures
            r@ == fx_mul(self@, o@),
    {
        let neg: bool = (self.raw < 0) != (o.raw < 0);
        let ma: u128 = mag_of(self.raw);
        let mb: u128 = mag_of(o.raw);
        proof {
            lemma_mul_abs(self.raw as int, o.raw as int);
            assert((ma as int) * (mb as int) <= 0x8000000000000000 * 0x8000000000000000)
                by (nonlinear_arith)
                requires
                    0 <= ma as int <= 0x8000000000000000,
                    0 <= mb as int <= 0x8000000000000000,
            ;
        }
        let q: u128 = (ma * mb) / 65536u128;
        proof {
            let a: int = self.raw as int;
            let b: int = o.raw as int;
            assert(q as int == abs_int(a * b) / 65536);
            if a * b >= 0 {
                assert(tdiv(a * b, FX_ONE as int) == q as int);
            } else {
                assert(tdiv(a * b, FX_ONE as int) == -(q as int));
            }
        }
        Fx { raw: from_sign_mag(neg, q) }
    }

    /// Saturating fixed-point division; zero when the divisor is zero.
    pub fn div(self, o: Fx) -> (r: Fx)
        ensures
            r@ == fx_div(self@, o@),
    {
        if o.raw == 0 {
            return Fx { raw: 0 };
        }
        let neg: bool = (self.raw < 0) != (o.raw < 0);
        let ma: u128 = mag_of(self.raw);
        let mb: u128 = mag_of(o.raw);
        let q: u128 = (ma * 65536u128) / mb;
        proof {
            let a: int = self.raw as int;
            let b: int = o.raw as int;
            lemma_mul_abs(a, 65536);
            if a == 0 {
                vstd::arithmetic::div_mod::lemma_div_of0(mb as int);
            }
            assert(q as int == abs_int(a * 65536) / abs_int(b));
            if (a * 65536 >= 0) == (b >= 0) {
                assert(tdiv(a * 65536, b) == q as int);
            } else {
                assert(tdiv(a * 65536, b) == -(q as int));
            }
        }
        Fx { raw: from_sign_mag(neg, q) }
    }

    /// Fixed-point division by a plain positive integer.
    pub fn div_int(self, k: i64) -> (r: Fx)
        requires
            k > 0,
        ensures
            r@ == fx_div_int(self@, k as int),
    {
        let neg: bool = self.raw < 0;
        let ma: u128 = mag_of(self.raw);
        let q: u128 = ma / (k as u128);
        proof {
            let a: int = self.raw as int;
            if a == 0 {
                vstd::arithmetic::div_mod::lemma_div_of0(k as int);
            }
            assert(q as int == abs_int(a) / abs_int(k as int));
            if a >= 0 {
                assert(tdiv(a, k as int) == q as int);
            } else {
                assert(tdiv(a, k as int) == -(q as int));
            }
        }
        Fx { raw: from_sign_mag(neg, q) }
    }

    /// Fixed-point square root of a nonnegative value: binary search
    /// for the integer square root of `raw * 65536`.
    pub fn sqrt(self) -> (r: Fx)
        requires
            self.raw >= 0,
        ensures
            r@ == fx_sqrt(self@),
            r.raw >= 0,
    {
        let x: u128 = (self.raw as u128) * 65536u128;
        let mut lo: u128 = 0;
        let mut hi: u128 = 1099511627776u128;
        proof {
            assert(1099511627776 * 1099511627776 == 0x100000000000000000000int) by (nonlinear_arith);
        }
        while lo + 1 < hi
            invariant
                (lo as int) * (lo as int) <= x as int,
                (x as int) < (hi as int) * (hi as int),
                lo < hi,
                hi <= 1099511627776,
            decreases hi - lo,
        {
            let mid: u128 = lo + (hi - lo) / 2;
            proof {
                assert((mid as int) * (mid as int) <= 1099511627776 * 1099511627776)
                    by (nonlinear_arith)
                    requires
                        0 <= mid as int <= 1099511627776,
                ;
            }
            if mid * mid <= x {
                lo = mid;
            } else {
                hi = mid;
            }
        }
        proof {
            lemma_isqrt_unique(self.raw as int, lo as int);
        }
        Fx { raw: lo as i64 }
    }

    /// Fixed-point power with a plain nonnegative integer exponent.
    pub fn powi(self, n: u64) -> (r: Fx)
        ensures
            r@ == fx_pow(self@, n as nat),
    {
        let mut acc: Fx = Fx { raw: FX_ONE };
        let mut i: u64 = 0;
        while i < n
            invariant
                i <= n,
                acc@ == fx_pow(self@, i as nat),
            decreases n - i,
        {
            acc = acc.mul(self);
            i = i + 1;
        }
        acc
    }
}

/// Taylor polynomial for the sine of `x` radians, evaluated in
/// fixed-point arithmetic.  Accurate for `|x|` up to a half turn.
pub open spec fn sin_approx(x: int) -> int {
    let x2: int = fx_mul(x, x);
    let x3: int = fx_mul(x2, x);
    let x5: int = fx_mul(x3, x2);
    let x7: int = fx_mul(x5, x2);
    let x9: int = fx_mul(x7, x2);
    fx_add(
        fx_sub(fx_add(fx_sub(x, fx_div_int(x3, 6)), fx_div_int(x5, 120)), fx_div_int(x7, 5040)),
        fx_div_int(x9, 362880),
    )
}

/// Taylor polynomial for the cosine of `x` radians, evaluated in
/// fixed-point arithmetic.  Accurate for `|x|` up to a half turn.
pub open spec fn cos_approx(x: int) -> int {
    let x2: int = fx_mul(x, x);
    let x4: int = fx_mul(x2, x2);
    let x6: int = fx_mul(x4, x2);
    let x8: int = fx_mul(x6, x2);
    let x10: int = fx_mul(x8, x2);
    fx_sub(
        fx_add(
            fx_sub(fx_add(fx_sub(FX_ONE as int, fx_div_int(x2, 2)), fx_div_int(x4, 24)), fx_div_int(x6, 720)),
            fx_div_int(x8, 40320),
        ),
        fx_div_int(x10, 3628800),
    )
}

/// Tangent of `x` radians: sine over cosine, saturated where the
/// approximated cosine is not positive.
pub open spec fn tan_approx(x: int) -> int {
    if cos_approx(x) <= 0 {
        i64::MAX as int
    } else {
        fx_div(sin_approx(x), cos_approx(x))
    }
}

impl Fx {
    /// Sine of `self` radians, by Taylor polynomial.
    pub fn sin(self) -> (r: Fx)
        ensures
            r@ == sin_approx(self@),
    {
        let x2: Fx = self.mul(self);
        let x3: Fx = x2.mul(self);
        let x5: Fx = x3.mul(x2);
        let x7: Fx = x5.mul(x2);
        let x9: Fx = x7.mul(x2);
        self.sub(x3.div_int(6)).add(x5.div_int(120)).sub(x7.div_int(5040)).add(
            x9.div_int(362880),
        )
    }

    /// Cosine of `self` radians, by Taylor polynomial.
    pub fn cos(self) -> (r: Fx)
        ensures
            r@ == cos_approx(self@),
    {
        let x2: Fx = self.mul(self);
        let x4: Fx = x2.mul(x2);
        let x6: Fx = x4.mul(x2);
        let x8: Fx = x6.mul(x2);
        let x10: Fx = x8.mul(x2);
        Fx { raw: FX_ONE }.sub(x2.div_int(2)).add(x4.div_int(24)).sub(x6.div_int(720)).add(
            x8.div_int(40320),
        ).sub(x10.div_int(3628800))
    }

    /// Tangent of `self` radians.
    pub fn tan(self) -> (r: Fx)
        ensures
            r@ == tan_approx(self@),
    {
        let s: Fx = self.sin();
        let c: Fx = self.cos();
        if c.raw <= 0 {
            Fx { raw: i64::MAX }
        } else {
            s.div(c)
        }
    }
}

/// The integer square root is unique, so the searched root is the
/// specified one.
proof fn lemma_isqrt_unique(a: int, r: int)
    requires
        is_isqrt(a * (FX_ONE as int), r),
    ensures
        fx_sqrt(a) == r,
{
    let x: int = a * (FX_ONE as int);
    let w: int = choose|q: int| #[trigger] is_isqrt(x, q);
    assert(is_isqrt(x, w));
    assert(w == r) by (nonlinear_arith)
        requires
            0 <= r,
            r * r <= x,
            x < (r + 1) * (r + 1),
            0 <= w,
            w * w <= x,
            x < (w + 1) * (w + 1),
    ;
}

} // verus!
