//! Fixed-point vector math: three-axis samples, truncating division and the
//! single-pole low-pass filter.
//!
//! Samples carry milli-µT components bounded by [`MAG_LIMIT`], and the
//! filter coefficient is a fraction in thousandths, so every step here is
//! exact integer arithmetic with divisions rounding toward zero.

use vstd::arithmetic::div_mod::{
    lemma_div_is_ordered, lemma_div_multiples_vanish, lemma_div_nonincreasing, lemma_div_of0,
    lemma_div_pos_is_pos,
};
use vstd::prelude::*;

use crate::tables::MAG_LIMIT;

verus! {

/// One whole in filter-coefficient units: a coefficient of `ALPHA_UNIT`
/// passes the input straight through.
pub const ALPHA_UNIT: u32 = 1000;

/// Integer division rounding toward zero (for a positive divisor).
pub open spec fn div_trunc(a: int, d: int) -> int
    recommends
        d > 0,
{
    if a >= 0 {
        a / d
    } else {
        -((-a) / d)
    }
}

/// Rounding toward zero never grows a magnitude: a quotient bounded on the
/// scaled range stays bounded on the plain range.
pub proof fn lemma_div_trunc_bound(a: int, d: int, l: int)
    requires
        d > 0,
        0 <= l,
        -(l * d) <= a <= l * d,
    ensures
        -l <= div_trunc(a, d) <= l,
{
    if a >= 0 {
        lemma_div_pos_is_pos(a, d);
        lemma_div_is_ordered(a, l * d, d);
        lemma_div_multiples_vanish(l, d);
        assert(l * d == d * l) by (nonlinear_arith);
    } else {
        lemma_div_pos_is_pos(-a, d);
        lemma_div_is_ordered(-a, l * d, d);
        lemma_div_multiples_vanish(l, d);
        assert(l * d == d * l) by (nonlinear_arith);
    }
}

/// Executable division rounding toward zero.
pub fn div_trunc_i64(a: i64, d: i64) -> (q: i64)
    requires
        d > 0,
    ensures
        q == div_trunc(a as int, d as int),
        a >= 0 ==> 0 <= q <= a,
        a < 0 ==> a <= q <= 0,
{
    proof {
        lemma_div_of0(d as int);
        if a >= 0 {
            lemma_div_pos_is_pos(a as int, d as int);
            lemma_div_nonincreasing(a as int, d as int);
        } else {
            lemma_div_pos_is_pos(-(a as int), d as int);
            lemma_div_nonincreasing(-(a as int), d as int);
        }
    }
    a.checked_div(d).unwrap()
}

/// A three-axis sample in milli-µT.
#[derive(Debug, Clone, Copy, PartialEq, Eq, Structural)]
pub struct Vector3 {
    pub x: i64,
    pub y: i64,
    pub z: i64,
}

impl Vector3 {
    /// Every component within the decodable range.
    pub open spec fn wf(self) -> bool {
        &&& -MAG_LIMIT <= self.x <= MAG_LIMIT
        &&& -MAG_LIMIT <= self.y <= MAG_LIMIT
        &&& -MAG_LIMIT <= self.z <= MAG_LIMIT
    }

    /// A sample from its three components.
    pub fn new(x: i64, y: i64, z: i64) -> (r: Vector3)
        ensures
            r.x == x,
            r.y == y,
            r.z == z,
    {
        Vector3 { x, y, z }
    }
}

/// One component of the filter step: the convex mix of input and previous
/// output with weights `alpha` and `ALPHA_UNIT - alpha`, in thousandths.
pub open spec fn lp_component(alpha: int, prev: int, input: int) -> int {
    div_trunc(alpha * input + (ALPHA_UNIT - alpha) * prev, ALPHA_UNIT as int)
}

/// A convex mix of two in-range values stays in range.
pub proof fn lemma_lp_component_bounded(alpha: int, prev: int, input: int)
    requires
        0 <= alpha <= ALPHA_UNIT,
        -MAG_LIMIT <= prev <= MAG_LIMIT,
        -MAG_LIMIT <= input <= MAG_LIMIT,
    ensures
        -MAG_LIMIT <= lp_component(alpha, prev, input) <= MAG_LIMIT,
{
    assert(-(MAG_LIMIT * (ALPHA_UNIT as int)) <= alpha * input + (ALPHA_UNIT - alpha) * prev
        <= MAG_LIMIT * (ALPHA_UNIT as int)) by (nonlinear_arith)
        requires
            0 <= alpha <= ALPHA_UNIT,
            -MAG_LIMIT <= prev <= MAG_LIMIT,
            -MAG_LIMIT <= input <= MAG_LIMIT,
    ;
    lemma_div_trunc_bound(
        alpha * input + (ALPHA_UNIT - alpha) * prev,
        ALPHA_UNIT as int,
        MAG_LIMIT as int,
    );
}

/// A single-pole low-pass filter over three-axis samples.
///
/// The first sample passes through unchanged; afterwards each output is the
/// convex mix `(alpha * input + (ALPHA_UNIT - alpha) * previous) / ALPHA_UNIT`
/// per component, rounded toward zero.
pub struct LowPassFilter {
    pub alpha: u32,
    pub state: Option<Vector3>,
}

impl LowPassFilter {
    /// Coefficient in range and any retained output in range.
    pub open spec fn wf(self) -> bool {
        &&& self.alpha <= ALPHA_UNIT
        &&& match self.state {
            Some(v) => v.wf(),
            None => true,
        }
    }

    /// A fresh filter with the given coefficient in thousandths and no
    /// retained output.
    pub fn new(alpha: u32) -> (r: LowPassFilter)
        requires
            alpha <= ALPHA_UNIT,
        ensures
            r.alpha == alpha,
            r.state is None,
            r.wf(),
    {
        LowPassFilter { alpha, state: None }
    }

    /// Feed one sample through the filter and return the smoothed sample,
    /// which also becomes the retained output.
    pub fn update(&mut self, input: Vector3) -> (r: Vector3)
        requires
            old(self).wf(),
            input.wf(),
        ensures
            final(self).wf(),
            final(self).alpha == old(self).alpha,
            final(self).state == Some(r),
            r.wf(),
            old(self).state is None ==> r == input,
            old(self).state matches Some(prev) ==> {
                &&& r.x == lp_component(old(self).alpha as int, prev.x as int, input.x as int)
                &&& r.y == lp_component(old(self).alpha as int, prev.y as int, input.y as int)
                &&& r.z == lp_component(old(self).alpha as int, prev.z as int, input.z as int)
            },
    {
        let filtered = match self.state {
            Some(prev) => Vector3 {
                x: lp_axis(self.alpha, prev.x, input.x),
                y: lp_axis(self.alpha, prev.y, input.y),
                z: lp_axis(self.alpha, prev.z, input.z),
            },
            None => input,
        };
        self.state = Some(filtered);
        filtered
    }
}

/// One executable filter component.
fn lp_axis(alpha: u32, prev: i64, input: i64) -> (r: i64)
    requires
        alpha <= ALPHA_UNIT,
        -MAG_LIMIT <= prev <= MAG_LIMIT,
        -MAG_LIMIT <= input <= MAG_LIMIT,
    ensures
        r == lp_component(alpha as int, prev as int, input as int),
        -MAG_LIMIT <= r <= MAG_LIMIT,
{
    proof {
        assert(-(MAG_LIMIT * (ALPHA_UNIT as int)) <= alpha * input <= MAG_LIMIT * (
        ALPHA_UNIT as int) && -(MAG_LIMIT * (ALPHA_UNIT as int)) <= (ALPHA_UNIT - alpha) * prev
            <= MAG_LIMIT * (ALPHA_UNIT as int)) by (nonlinear_arith)
            requires
                0 <= alpha <= ALPHA_UNIT,
                -MAG_LIMIT <= prev <= MAG_LIMIT,
                -MAG_LIMIT <= input <= MAG_LIMIT,
        ;
        lemma_lp_component_bounded(alpha as int, prev as int, input as int);
    }
    let numerator: i64 = (alpha as i64) * input + ((ALPHA_UNIT - alpha) as i64) * prev;
    div_trunc_i64(numerator, ALPHA_UNIT as i64)
}

} // verus!
