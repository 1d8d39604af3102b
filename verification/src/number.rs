//! The scalar type of the renderer.
//!
//! Every quantity is a `Number`: a signed 64-bit count of billionths
//! (`raw / SCALE` is the value represented). All operations are total:
//! results outside the representable range saturate at the extremes, and
//! products, quotients and square roots round to a neighbouring quantum as
//! the spec functions below state exactly.
use vstd::arithmetic::div_mod::{
    lemma_div_is_ordered, lemma_fundamental_div_mod, lemma_fundamental_div_mod_converse,
};
use vstd::prelude::*;

verus! {

/// Quanta per unit: values carry nine decimal digits after the point.
pub const SCALE: i64 = 1_000_000_000;

/// Half a unit, used to round products and quotients to the nearest quantum.
pub const HALF_SCALE: i64 = 500_000_000;

/// Tolerance used by `is_number_equal`: one quantum, the smallest gap the
/// representation can express (the analogue of the machine epsilon).
pub const EPSILON: i64 = 1;

/// Saturation of an unbounded result into the representable range.
pub open spec fn num_clip(x: int) -> int {
    if x > i64::MAX as int {
        i64::MAX as int
    } else if x < i64::MIN as int {
        i64::MIN as int
    } else {
        x
    }
}

pub open spec fn num_abs(x: int) -> int {
    if x >= 0 {
        x
    } else {
        -x
    }
}

pub open spec fn num_add(a: int, b: int) -> int {
    num_clip(a + b)
}

pub open spec fn num_sub(a: int, b: int) -> int {
    num_clip(a - b)
}

pub open spec fn num_neg(a: int) -> int {
    num_clip(-a)
}

/// The raw value of a product: the mathematical product of the two
/// represented values, rounded half away from zero, then saturated.
pub open spec fn num_mul(a: int, b: int) -> int {
    let q = (num_abs(a * b) + HALF_SCALE as int) / (SCALE as int);
    if a * b >= 0 {
        num_clip(q)
    } else {
        num_clip(-q)
    }
}

/// The raw value of a quotient, rounded half away from zero and saturated;
/// division by zero saturates to the extreme of the dividend's sign.
pub open spec fn num_div(a: int, b: int) -> int {
    if b == 0 {
        if a > 0 {
            i64::MAX as int
        } else if a < 0 {
            i64::MIN as int
        } else {
            0
        }
    } else {
        let q = (num_abs(a) * (SCALE as int) + num_abs(b) / 2) / num_abs(b);
        if (a >= 0) == (b > 0) {
            num_clip(q)
        } else {
            num_clip(-q)
        }
    }
}

/// The largest integer not above the represented value.
pub open spec fn num_floor(a: int) -> int {
    a / (SCALE as int)
}

/// `r` is the integer square root of `n` (rounded down).
pub open spec fn is_sqrt(n: int, r: int) -> bool {
    0 <= r && r * r <= n && n < (r + 1) * (r + 1)
}

/// The integer square root as a function (meaningful for `n >= 0`).
pub open spec fn num_sqrt(n: int) -> int {
    choose|r: int| is_sqrt(n, r)
}

/// The integer square root is unique, so any witness equals `num_sqrt`.
pub proof fn lemma_sqrt_unique(n: int, r: int)
    requires
        is_sqrt(n, r),
    ensures
        num_sqrt(n) == r,
{
    assert(exists|x: int| is_sqrt(n, x)) by {
        assert(is_sqrt(n, r));
    }
    let r2 = num_sqrt(n);
    assert(is_sqrt(n, r2));
    assert(r2 == r) by (nonlinear_arith)
        requires
            0 <= r,
            r * r <= n,
            n < (r + 1) * (r + 1),
            0 <= r2,
            r2 * r2 <= n,
            n < (r2 + 1) * (r2 + 1),
    ;
}

/// A fixed-point square of any value is non-negative.
pub proof fn lemma_num_mul_self_nonneg(a: int)
    ensures
        num_mul(a, a) >= 0,
{
    assert(a * a >= 0) by (nonlinear_arith);
    vstd::arithmetic::div_mod::lemma_div_pos_is_pos(
        num_abs(a * a) + HALF_SCALE as int,
        SCALE as int,
    );
}

/// The raw value of an integer power: `e` successive fixed-point products.
pub open spec fn num_powi(a: int, e: nat) -> int
    decreases e,
{
    if e == 0 {
        SCALE as int
    } else {
        num_mul(num_powi(a, (e - 1) as nat), a)
    }
}

/// The represented value rounded half away from zero to a whole number.
pub open spec fn num_round(a: int) -> int {
    if a >= 0 {
        (a + HALF_SCALE as int) / (SCALE as int)
    } else {
        -((-a + HALF_SCALE as int) / (SCALE as int))
    }
}

/// A real-valued scalar in fixed-point representation.
#[derive(Clone, Copy, Debug, PartialEq, Eq, Structural)]
pub struct Number {
    pub raw: i64,
}

impl View for Number {
    type V = int;

    open spec fn view(&self) -> int {
        self.raw as int
    }
}

proof fn lemma_mul_bound(a: int, b: int, ca: int, cb: int)
    requires
        -ca <= a <= ca,
        -cb <= b <= cb,
        0 <= ca,
        0 <= cb,
    ensures
        -(ca * cb) <= a * b <= ca * cb,
{
    assert(-(ca * cb) <= a * b <= ca * cb) by (nonlinear_arith)
        requires
            -ca <= a <= ca,
            -cb <= b <= cb,
            0 <= ca,
            0 <= cb,
    ;
}

impl Number {
    /// The value zero.
    pub fn zero() -> (r: Number)
        ensures
            r@ == 0,
    {
        Number { raw: 0 }
    }

    /// The value one.
    pub fn one() -> (r: Number)
        ensures
            r@ == SCALE as int,
    {
        Number { raw: SCALE }
    }

    /// The underlying count of quanta.
    pub fn raw(&self) -> (r: i64)
        ensures
            r as int == self@,
    {
        self.raw
    }

    /// Builds the number representing a quantum count directly.
    pub fn from_raw(raw: i64) -> (r: Number)
        ensures
            r@ == raw as int,
    {
        Number { raw }
    }

    /// The whole number `i`, saturated if it is not representable.
    pub fn from_int(i: i64) -> (r: Number)
        ensures
            r@ == num_clip(i * SCALE as int),
    {
        let v = (i as i128) * (SCALE as i128);
        proof {
            lemma_mul_bound(i as int, SCALE as int, 0x8000_0000_0000_0000, SCALE as int);
        }
        clamp_i128(v)
    }

    /// The ratio `n / d`, evaluated in fixed point.
    pub fn from_ratio(n: i64, d: i64) -> (r: Number)
        ensures
            r@ == num_div(num_clip(n * SCALE as int), num_clip(d * SCALE as int)),
    {
        Number::from_int(n).div(Number::from_int(d))
    }

    /// Fixed-point addition, saturating at the extremes.
    pub fn add(self, rhs: Number) -> (r: Number)
        ensures
            r@ == num_add(self@, rhs@),
    {
        clamp_i128(self.raw as i128 + rhs.raw as i128)
    }

    /// Fixed-point subtraction, saturating at the extremes.
    pub fn sub(self, rhs: Number) -> (r: Number)
        ensures
            r@ == num_sub(self@, rhs@),
    {
        clamp_i128(self.raw as i128 - rhs.raw as i128)
    }

    /// Negation (saturating only at the far end of the range).
    pub fn neg(self) -> (r: Number)
        ensures
            r@ == num_neg(self@),
    {
        clamp_i128(-(self.raw as i128))
    }

    /// The absolute value, saturating only for the most negative raw value.
    pub fn abs(self) -> (r: Number)
        ensures
            r@ == num_clip(num_abs(self@)),
    {
        if self.raw < 0 {
            clamp_i128(-(self.raw as i128))
        } else {
            self
        }
    }

    /// Fixed-point product, rounded half away from zero, saturating.
    pub fn mul(self, rhs: Number) -> (r: Number)
        ensures
            r@ == num_mul(self@, rhs@),
    {
        let a = self.raw as i128;
        let b = rhs.raw as i128;
        proof {
            lemma_mul_bound(
                a as int,
                b as int,
                0x8000_0000_0000_0000,
                0x8000_0000_0000_0000,
            );
        }
        let p = a * b;
        let neg = p < 0;
        let m: u128 = if neg {
            (-p) as u128
        } else {
            p as u128
        };
        proof {
            assert(9223372036854775808int * 9223372036854775808int + HALF_SCALE as int
                <= u128::MAX as int) by (nonlinear_arith);
        }
        let q: u128 = (m + HALF_SCALE as u128) / (SCALE as u128);
        if neg {
            if q >= 9223372036854775808u128 {
                Number { raw: i64::MIN }
            } else {
                Number { raw: -(q as i64) }
            }
        } else {
            if q > i64::MAX as u128 {
                Number { raw: i64::MAX }
            } else {
                Number { raw: q as i64 }
            }
        }
    }

    /// Fixed-point quotient, rounded half away from zero, saturating;
    /// a zero divisor saturates to the extreme matching the dividend's sign.
    pub fn div(self, rhs: Number) -> (r: Number)
        ensures
            r@ == num_div(self@, rhs@),
    {
        if rhs.raw == 0 {
            if self.raw > 0 {
                Number { raw: i64::MAX }
            } else if self.raw < 0 {
                Number { raw: i64::MIN }
            } else {
                Number { raw: 0 }
            }
        } else {
            let a = self.raw as i128;
            let b = rhs.raw as i128;
            let ma: u128 = if a < 0 {
                (-a) as u128
            } else {
                a as u128
            };
            let mb: u128 = if b < 0 {
                (-b) as u128
            } else {
                b as u128
            };
            proof {
                lemma_mul_bound(
                    ma as int,
                    SCALE as int,
                    0x1_0000_0000_0000_0000,
                    SCALE as int,
                );
            }
            let num = ma * (SCALE as u128) + mb / 2;
            let q = num / mb;
            let neg = (self.raw < 0) != (rhs.raw < 0);
            if neg {
                if q >= 9223372036854775808u128 {
                    Number { raw: i64::MIN }
                } else {
                    Number { raw: -(q as i64) }
                }
            } else {
                if q > i64::MAX as u128 {
                    Number { raw: i64::MAX }
                } else {
                    Number { raw: q as i64 }
                }
            }
        }
    }

    /// The square root (of a non-negative number), rounded down to the
    /// quantum grid: the result is the integer square root of `value * SCALE`.
    pub fn sqrt(self) -> (r: Number)
        requires
            self@ >= 0,
        ensures
            r@ >= 0,
            is_sqrt(self@ * SCALE as int, r@),
            r@ == num_sqrt(self@ * SCALE as int),
    {
        proof {
            lemma_mul_bound(self.raw as int, SCALE as int, 0x8000_0000_0000_0000, SCALE as int);
            assert(9223372036854775808int * 1000000000int < 140737488355328int
                * 140737488355328int) by (nonlinear_arith);
            assert(self.raw as int * SCALE as int <= 9223372036854775807int * 1000000000int)
                by (nonlinear_arith)
                requires 0 <= self.raw as int <= 9223372036854775807int;
        }
        let n: u128 = (self.raw as u128) * (SCALE as u128);
        let root = isqrt_u128(n);
        proof {
            lemma_sqrt_unique(self@ * SCALE as int, root as int);
            if root as int > i64::MAX as int {
                lemma_mul_bound(1, 1, root as int, root as int);
                assert((i64::MAX as int + 1) * (i64::MAX as int + 1) <= root as int * root as int)
                    by (nonlinear_arith)
                    requires root as int >= i64::MAX as int + 1;
                assert(false);
            }
        }
        Number { raw: root as i64 }
    }

    /// The largest whole number not above the value.
    pub fn floor(self) -> (r: i64)
        ensures
            r as int == num_floor(self@),
    {
        if self.raw >= 0 {
            ((self.raw as u64) / (SCALE as u64)) as i64
        } else {
            let m = (-(self.raw as i128)) as u128;
            let q = m / (SCALE as u128);
            let rem = m % (SCALE as u128);
            proof {
                lemma_fundamental_div_mod(m as int, SCALE as int);
                lemma_div_is_ordered(m as int, 0x8000_0000_0000_0000, SCALE as int);
                if rem == 0 {
                    lemma_fundamental_div_mod_converse(
                        self.raw as int,
                        SCALE as int,
                        -(q as int),
                        0,
                    );
                } else {
                    lemma_fundamental_div_mod_converse(
                        self.raw as int,
                        SCALE as int,
                        -(q as int) - 1,
                        SCALE as int - rem as int,
                    );
                }
            }
            if rem == 0 {
                -(q as i64)
            } else {
                -(q as i64) - 1
            }
        }
    }

    /// Whether the floor of the value is an even number.
    pub fn floor_is_even(self) -> (r: bool)
        ensures
            r == (num_floor(self@) % 2 == 0),
    {
        let f = self.floor();
        let m: u64 = if f < 0 {
            ((-(f as i128)) as u64) % 2
        } else {
            (f as u64) % 2
        };
        proof {
            let fi = num_floor(self@);
            if f < 0 {
                assert(fi % 2 == if (-fi) % 2 == 0 { 0int } else { 1int }) by (nonlinear_arith);
            }
        }
        m == 0
    }

    /// The value rounded half away from zero to a whole number.
    pub fn round(self) -> (r: i64)
        ensures
            r as int == num_round(self@),
    {
        if self.raw >= 0 {
            proof {
                lemma_div_is_ordered(
                    self.raw as int + HALF_SCALE as int,
                    0x8000_0000_0000_0000 + HALF_SCALE as int,
                    SCALE as int,
                );
            }
            (((self.raw as u128) + (HALF_SCALE as u128)) / (SCALE as u128)) as i64
        } else {
            let m = ((-(self.raw as i128)) as u128 + (HALF_SCALE as u128)) / (SCALE as u128);
            proof {
                lemma_div_is_ordered(
                    -(self.raw as int) + HALF_SCALE as int,
                    0x8000_0000_0000_0000 + HALF_SCALE as int,
                    SCALE as int,
                );
            }
            -(m as i64)
        }
    }

    /// The value raised to the whole-number power `e`, by repeated
    /// fixed-point multiplication.
    pub fn powi(self, e: u32) -> (r: Number)
        ensures
            r@ == num_powi(self@, e as nat),
    {
        let mut acc = Number::one();
        let mut i: u32 = 0;
        while i < e
            invariant
                0 <= i <= e,
                acc@ == num_powi(self@, i as nat),
            decreases e - i,
        {
            acc = acc.mul(self);
            i = i + 1;
        }
        acc
    }

    /// Exact comparison: less-than on the represented values.
    pub fn lt(self, rhs: Number) -> (r: bool)
        ensures
            r == (self@ < rhs@),
    {
        self.raw < rhs.raw
    }

    /// Exact comparison: at-most on the represented values.
    pub fn le(self, rhs: Number) -> (r: bool)
        ensures
            r == (self@ <= rhs@),
    {
        self.raw <= rhs.raw
    }

    /// Exact comparison: greater-than on the represented values.
    pub fn gt(self, rhs: Number) -> (r: bool)
        ensures
            r == (self@ > rhs@),
    {
        self.raw > rhs.raw
    }

    /// Exact comparison: at-least on the represented values.
    pub fn ge(self, rhs: Number) -> (r: bool)
        ensures
            r == (self@ >= rhs@),
    {
        self.raw >= rhs.raw
    }

    /// Whether the two values differ by at most `tolerance`.
    pub fn within(self, rhs: Number, tolerance: Number) -> (r: bool)
        ensures
            r == (num_abs(self@ - rhs@) <= tolerance@),
    {
        let d = self.raw as i128 - rhs.raw as i128;
        let m = if d < 0 {
            -d
        } else {
            d
        };
        m <= tolerance.raw as i128
    }
}

/// Whether two numbers differ by less than `EPSILON` (one quantum); in this
/// discrete representation that is exact equality of the represented values.
pub fn is_number_equal(a: Number, b: Number) -> (r: bool)
    ensures
        r == (num_abs(a@ - b@) < EPSILON as int),
        r == (a@ == b@),
{
    a.raw == b.raw
}

/// Saturates an intermediate 128-bit result into the scalar range.
fn clamp_i128(v: i128) -> (r: Number)
    ensures
        r@ == num_clip(v as int),
{
    if v > i64::MAX as i128 {
        Number { raw: i64::MAX }
    } else if v < i64::MIN as i128 {
        Number { raw: i64::MIN }
    } else {
        Number { raw: v as i64 }
    }
}

/// The integer square root, by bisection, of values below `2^94`.
fn isqrt_u128(n: u128) -> (r: u128)
    requires
        (n as int) < 140737488355328int * 140737488355328int,
    ensures
        is_sqrt(n as int, r as int),
{
    let mut lo: u128 = 0;
    let mut hi: u128 = 140737488355328u128;
    while lo + 1 < hi
        invariant
            lo < hi,
            hi <= 140737488355328u128,
            lo as int * lo as int <= n as int,
            (n as int) < hi as int * hi as int,
        decreases hi - lo,
    {
        let mid = lo + (hi - lo) / 2;
        proof {
            assert(mid as int * mid as int <= 140737488355328int * 140737488355328int)
                by (nonlinear_arith)
                requires 0 <= mid as int <= 140737488355328int;
        }
        let sq = mid * mid;
        if sq <= n {
            lo = mid;
        } else {
            hi = mid;
        }
    }
    lo
}

} // verus!

verus! {

/// The raw values of a sequence of numbers.
pub open spec fn raws(s: Seq<Number>) -> Seq<int> {
    s.map_values(|n: Number| n@)
}

} // verus!

verus! {

/// A non-negative value has an integer square root, so `num_sqrt` of it
/// satisfies `is_sqrt`.
pub proof fn lemma_sqrt_witness(v: int)
    requires
        v >= 0,
    ensures
        is_sqrt(v, num_sqrt(v)),
{
    let r = sqrt_witness(v);
    lemma_sqrt_unique(v, r);
}

/// An explicit integer square root for every non-negative value.
proof fn sqrt_witness(v: int) -> (r: int)
    requires
        v >= 0,
    ensures
        is_sqrt(v, r),
    decreases v,
{
    if v == 0 {
        assert(is_sqrt(0, 0));
        0
    } else {
        let r0 = sqrt_witness(v - 1);
        if (r0 + 1) * (r0 + 1) <= v {
            assert(v <= (r0 + 1) * (r0 + 1)) by (nonlinear_arith)
                requires
                    v - 1 < (r0 + 1) * (r0 + 1),
            ;
            assert(is_sqrt(v, r0 + 1)) by (nonlinear_arith)
                requires
                    (r0 + 1) * (r0 + 1) <= v,
                    v <= (r0 + 1) * (r0 + 1),
                    r0 >= 0,
            ;
            r0 + 1
        } else {
            assert(is_sqrt(v, r0));
            r0
        }
    }
}

} // verus!
