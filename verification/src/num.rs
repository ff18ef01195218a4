//! Scalar arithmetic helpers: clamping and floor division.

use vstd::prelude::*;
use vstd::arithmetic::div_mod::{
    lemma_fundamental_div_mod, lemma_div_nonincreasing, lemma_div_pos_is_pos,
    lemma_mod_division_less_than_divisor, lemma_div_is_ordered, lemma_div_multiples_vanish,
};

verus! {

/// What clamping a value to `[-max, max]` yields.
pub open spec fn clamp_spec(v: int, max: int) -> int {
    if v > max {
        max
    } else if v < -max {
        -max
    } else {
        v
    }
}

/// Clamp one velocity axis to `[-max_speed, max_speed]`.
///
/// The result never exceeds `max_speed` in magnitude, and a value already
/// inside the band passes through unchanged.
pub fn clamp_velocity(velocity: i64, max_speed: i64) -> (r: i64)
    requires
        0 <= max_speed,
    ensures
        r == clamp_spec(velocity as int, max_speed as int),
        -max_speed <= r <= max_speed,
{
    if velocity > max_speed {
        max_speed
    } else if velocity < -max_speed {
        -max_speed
    } else {
        velocity
    }
}

/// Floor division by a positive divisor moves its argument toward zero:
/// the quotient always lies between `a` and `0`.
pub proof fn lemma_div_floor_bounds(a: int, b: int)
    requires
        0 < b,
    ensures
        a >= 0 ==> 0 <= a / b <= a,
        a < 0 ==> a <= a / b <= 0,
{
    lemma_fundamental_div_mod(a, b);
    lemma_mod_division_less_than_divisor(a, b);
    if a >= 0 {
        lemma_div_pos_is_pos(a, b);
        lemma_div_nonincreasing(a, b);
    } else {
        let q = a / b;
        let r = a % b;
        assert(a <= q <= 0) by (nonlinear_arith)
            requires
                a == b * q + r,
                0 <= r < b,
                1 <= b,
                a < 0,
        ;
    }
}

/// Floor division by a positive divisor respects a symmetric bound on the
/// numerator: from `|a| <= m * b` follows `|a / b| <= m`.
pub proof fn lemma_div_floor_symmetric_bound(a: int, b: int, m: int)
    requires
        0 < b,
        0 <= m,
        -m * b <= a <= m * b,
    ensures
        -m <= a / b <= m,
{
    lemma_div_is_ordered(a, m * b, b);
    lemma_div_is_ordered(-m * b, a, b);
    lemma_div_multiples_vanish(m, b);
    lemma_div_multiples_vanish(-m, b);
    assert(m * b == b * m) by (nonlinear_arith);
    assert(-m * b == b * -m) by (nonlinear_arith);
}

/// Divide, rounding toward negative infinity. For a positive divisor this
/// agrees with mathematical (Euclidean) integer division.
pub fn div_floor(a: i64, b: i64) -> (q: i64)
    requires
        0 < b,
    ensures
        q == a as int / b as int,
{
    proof {
        lemma_div_floor_bounds(a as int, b as int);
    }
    a.checked_div_euclid(b).unwrap()
}

} // verus!
