//! Sine, cosine and tangent in fixed point.
//!
//! The argument is reduced into `[-pi, pi]` by whole turns, folded into
//! `[-pi/2, pi/2]` by the symmetries of the circle, and evaluated there by
//! a truncated Taylor polynomial in Horner form (degree 13 for the sine,
//! degree 12 for the cosine). The spec functions state exactly the value
//! each step computes, so the approximation itself is the contract.
use crate::number::{num_add, num_clip, num_div, num_floor, num_mul, num_sub, Number, SCALE};
use vstd::prelude::*;

verus! {

/// The half turn, in quanta.
pub const PI_RAW: i64 = 3_141_592_654;

/// The full turn, in quanta.
pub const TWO_PI_RAW: i64 = 6_283_185_307;

/// The quarter turn, in quanta.
pub const HALF_PI_RAW: i64 = 1_570_796_327;

/// One step of the Horner evaluation: `1 - x2 * inner / d`.
pub open spec fn horner_step(x2: int, inner: int, d: int) -> int {
    num_sub(SCALE as int, num_div(num_mul(x2, inner), num_clip(d * SCALE as int)))
}

/// The sine polynomial on the reduced interval.
pub open spec fn spec_sin_core(y: int) -> int {
    let x2 = num_mul(y, y);
    let t1 = num_sub(SCALE as int, num_div(x2, num_clip(156 * SCALE as int)));
    let t2 = horner_step(x2, t1, 110);
    let t3 = horner_step(x2, t2, 72);
    let t4 = horner_step(x2, t3, 42);
    let t5 = horner_step(x2, t4, 20);
    let t6 = horner_step(x2, t5, 6);
    num_mul(y, t6)
}

/// The cosine polynomial on the reduced interval.
pub open spec fn spec_cos_core(y: int) -> int {
    let x2 = num_mul(y, y);
    let t1 = num_sub(SCALE as int, num_div(x2, num_clip(132 * SCALE as int)));
    let t2 = horner_step(x2, t1, 90);
    let t3 = horner_step(x2, t2, 56);
    let t4 = horner_step(x2, t3, 30);
    let t5 = horner_step(x2, t4, 12);
    horner_step(x2, t5, 2)
}

/// The angle brought into `[-pi, pi]` by subtracting whole turns.
pub open spec fn spec_reduce(x: int) -> int {
    let k = num_floor(num_div(num_add(x, PI_RAW as int), TWO_PI_RAW as int));
    num_sub(x, num_mul(num_clip(k * SCALE as int), TWO_PI_RAW as int))
}

/// The sine: reduction, folding, polynomial.
pub open spec fn spec_sin(x: int) -> int {
    let y = spec_reduce(x);
    if y > HALF_PI_RAW as int {
        spec_sin_core(num_sub(PI_RAW as int, y))
    } else if y < -(HALF_PI_RAW as int) {
        crate::number::num_neg(spec_sin_core(num_add(PI_RAW as int, y)))
    } else {
        spec_sin_core(y)
    }
}

/// The cosine: reduction, folding, polynomial.
pub open spec fn spec_cos(x: int) -> int {
    let y = spec_reduce(x);
    if y > HALF_PI_RAW as int {
        crate::number::num_neg(spec_cos_core(num_sub(PI_RAW as int, y)))
    } else if y < -(HALF_PI_RAW as int) {
        crate::number::num_neg(spec_cos_core(num_add(PI_RAW as int, y)))
    } else {
        spec_cos_core(y)
    }
}

/// The tangent: the sine over the cosine.
pub open spec fn spec_tan(x: int) -> int {
    num_div(spec_sin(x), spec_cos(x))
}

/// The half turn as a number.
pub fn pi() -> (r: Number)
    ensures
        r@ == PI_RAW as int,
{
    Number::from_raw(PI_RAW)
}

fn reduce(x: Number) -> (r: Number)
    ensures
        r@ == spec_reduce(x@),
{
    let k = x.add(Number::from_raw(PI_RAW)).div(Number::from_raw(TWO_PI_RAW)).floor();
    x.sub(Number::from_int(k).mul(Number::from_raw(TWO_PI_RAW)))
}

fn sin_core(y: Number) -> (r: Number)
    ensures
        r@ == spec_sin_core(y@),
{
    let x2 = y.mul(y);
    let mut t = Number::one().sub(x2.div(Number::from_int(156)));
    t = Number::one().sub(x2.mul(t).div(Number::from_int(110)));
    t = Number::one().sub(x2.mul(t).div(Number::from_int(72)));
    t = Number::one().sub(x2.mul(t).div(Number::from_int(42)));
    t = Number::one().sub(x2.mul(t).div(Number::from_int(20)));
    t = Number::one().sub(x2.mul(t).div(Number::from_int(6)));
    y.mul(t)
}

fn cos_core(y: Number) -> (r: Number)
    ensures
        r@ == spec_cos_core(y@),
{
    let x2 = y.mul(y);
    let mut t = Number::one().sub(x2.div(Number::from_int(132)));
    t = Number::one().sub(x2.mul(t).div(Number::from_int(90)));
    t = Number::one().sub(x2.mul(t).div(Number::from_int(56)));
    t = Number::one().sub(x2.mul(t).div(Number::from_int(30)));
    t = Number::one().sub(x2.mul(t).div(Number::from_int(12)));
    Number::one().sub(x2.mul(t).div(Number::from_int(2)))
}

/// The sine of an angle in radians.
pub fn sin(x: Number) -> (r: Number)
    ensures
        r@ == spec_sin(x@),
{
    let y = reduce(x);
    if y.gt(Number::from_raw(HALF_PI_RAW)) {
        sin_core(Number::from_raw(PI_RAW).sub(y))
    } else if y.lt(Number::from_raw(-HALF_PI_RAW)) {
        sin_core(Number::from_raw(PI_RAW).add(y)).neg()
    } else {
        sin_core(y)
    }
}

/// The cosine of an angle in radians.
pub fn cos(x: Number) -> (r: Number)
    ensures
        r@ == spec_cos(x@),
{
    let y = reduce(x);
    if y.gt(Number::from_raw(HALF_PI_RAW)) {
        cos_core(Number::from_raw(PI_RAW).sub(y)).neg()
    } else if y.lt(Number::from_raw(-HALF_PI_RAW)) {
        cos_core(Number::from_raw(PI_RAW).add(y)).neg()
    } else {
        cos_core(y)
    }
}

/// The tangent of an angle in radians (saturating where the cosine
/// vanishes).
pub fn tan(x: Number) -> (r: Number)
    ensures
        r@ == spec_tan(x@),
{
    sin(x).div(cos(x))
}

} // verus!
