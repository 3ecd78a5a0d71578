//! Fixed-point unit conventions and small arithmetic helpers.
//!
//! - Lengths and positions: raw value = length in space units times `SCALE`.
//! - Linear velocities: raw value = space units per second times `SCALE`.
//! - Angles: raw value = radians times `RAD_SCALE`; a full turn is `TAU_RAW`.
//! - Angular velocities: raw value = radians per second times `RAD_SCALE`.
//! - Unit vectors (cosine/sine pairs): each component times `UNIT_SCALE`.
//! - Time: nanoseconds.
//! - Masses: whole tons.

use vstd::prelude::*;

verus! {

/// Raw length units per space unit.
pub const SCALE: i64 = 1024;

/// Raw angle units per radian.
pub const RAD_SCALE: i64 = 1048576;

/// One full turn in raw angle units: the closest integer to tau * RAD_SCALE.
pub const TAU_RAW: i64 = 6588397;

/// Nanoseconds per second, the denominator when a rate meets a duration.
pub const NANOS: i64 = 1000000000;

/// Scale of the components of a heading unit vector.
pub const UNIT_SCALE: i64 = 1048576;

/// Magnitude bound kept on every stored position component.
pub const POS_LIMIT: i64 = 0x100_0000_0000;

/// Magnitude bound kept on every stored velocity component.
pub const VEL_LIMIT: i64 = 0x100_0000_0000;

/// Magnitude bound kept on every stored angular velocity.
pub const ANG_VEL_LIMIT: i64 = 0x100_0000_0000;

/// Largest time step a single frame may carry, in nanoseconds.
pub const DT_LIMIT: i64 = 4000000000;

/// Truncating (round-toward-zero) division, the meaning of `/` on the
/// machine integers the engine computes with.  Ghost `/` is Euclidean, so
/// contracts about executable division go through this function.
pub open spec fn tdiv(a: int, b: int) -> int
    recommends
        b > 0,
{
    if a >= 0 {
        a / b
    } else {
        -((-a) / b)
    }
}

/// Clamp to a symmetric range.
pub open spec fn clamp_mag(a: int, lim: int) -> int
    recommends
        lim > 0,
{
    if a > lim {
        lim
    } else if a < -lim {
        -lim
    } else {
        a
    }
}

/// Magnitude as a spec value.
pub open spec fn mag(a: int) -> int {
    if a >= 0 {
        a
    } else {
        -a
    }
}

/// A product of bounded factors is bounded by the product of the bounds.
pub proof fn lemma_mul_bound(a: int, b: int, ab: int, bb: int)
    by (nonlinear_arith)
    requires
        mag(a) <= ab,
        mag(b) <= bb,
    ensures
        mag(a * b) <= ab * bb,
        -(ab * bb) <= a * b <= ab * bb,
{
}

/// A square does not depend on the sign of its root.
pub proof fn lemma_mag_sq(a: int)
    by (nonlinear_arith)
    ensures
        mag(a) * mag(a) == a * a,
        a * a >= 0,
{
}

/// Magnitude distributes over a product with a nonnegative factor.
pub proof fn lemma_mag_mul(a: int, b: int)
    by (nonlinear_arith)
    requires
        b >= 0,
    ensures
        mag(a * b) == mag(a) * b,
{
}

/// Magnitude distributes over any product.
pub proof fn lemma_mag_mul2(a: int, b: int)
    by (nonlinear_arith)
    ensures
        mag(a * b) == mag(a) * mag(b),
{
}

pub proof fn lemma_tdiv_bounds(a: int, b: int)
    requires
        b > 0,
    ensures
        mag(tdiv(a, b)) <= mag(a) / b,
        b * tdiv(a, b) <= a + b - 1,
        a - b + 1 <= b * tdiv(a, b),
{
    if a >= 0 {
        vstd::arithmetic::div_mod::lemma_fundamental_div_mod(a, b);
        vstd::arithmetic::div_mod::lemma_mod_bound(a, b);
        vstd::arithmetic::div_mod::lemma_div_pos_is_pos(a, b);
    } else {
        vstd::arithmetic::div_mod::lemma_fundamental_div_mod(-a, b);
        vstd::arithmetic::div_mod::lemma_mod_bound(-a, b);
        vstd::arithmetic::div_mod::lemma_div_pos_is_pos(-a, b);
        assert(b * tdiv(a, b) == -(b * ((-a) / b))) by (nonlinear_arith)
            requires
                tdiv(a, b) == -((-a) / b),
        ;
    }
}

/// The rounded-down square root, as a mathematical function.
pub open spec fn sqrt_floor(n: int) -> int
    decreases n,
{
    if n <= 0 {
        0
    } else {
        let p = sqrt_floor(n - 1);
        if (p + 1) * (p + 1) <= n {
            p + 1
        } else {
            p
        }
    }
}

/// The rounded-up square root, as a mathematical function.
pub open spec fn sqrt_ceil(n: int) -> int {
    if sqrt_floor(n) * sqrt_floor(n) == n {
        sqrt_floor(n)
    } else {
        sqrt_floor(n) + 1
    }
}

pub proof fn lemma_sqrt_floor_props(n: int)
    requires
        n >= 0,
    ensures
        sqrt_floor(n) >= 0,
        sqrt_floor(n) * sqrt_floor(n) <= n,
        n < (sqrt_floor(n) + 1) * (sqrt_floor(n) + 1),
    decreases n,
{
    if n > 0 {
        lemma_sqrt_floor_props(n - 1);
        let p = sqrt_floor(n - 1);
        if (p + 1) * (p + 1) <= n {
            assert(n < (p + 2) * (p + 2)) by (nonlinear_arith)
                requires
                    n - 1 < (p + 1) * (p + 1),
                    (p + 1) * (p + 1) <= n,
                    p >= 0,
            ;
        }
    }
}

/// A square root of a value below `k * k` is at most `k`.
pub proof fn lemma_sqrt_bound(n: int, r: int, k: int)
    by (nonlinear_arith)
    requires
        0 <= n,
        0 <= r,
        0 <= k,
        r * r <= n,
        n <= k * k,
    ensures
        r <= k,
{
}

pub proof fn lemma_sqrt_ceil_props(n: int)
    requires
        n >= 0,
    ensures
        sqrt_ceil(n) >= 0,
        n <= sqrt_ceil(n) * sqrt_ceil(n),
        n > 0 ==> sqrt_ceil(n) >= 1,
{
    lemma_sqrt_floor_props(n);
    let f = sqrt_floor(n);
    if f * f != n {
        assert(n <= (f + 1) * (f + 1)) by (nonlinear_arith)
            requires
                n < (f + 1) * (f + 1),
        ;
    }
    if n > 0 && sqrt_ceil(n) == 0 {
        assert(false) by (nonlinear_arith)
            requires
                n > 0,
                sqrt_ceil(n) == 0,
                n <= sqrt_ceil(n) * sqrt_ceil(n),
        ;
    }
}

/// A value with the floor-square-root property is the floor square root.
pub proof fn lemma_sqrt_floor_unique(n: int, r: int)
    requires
        n >= 0,
        r >= 0,
        r * r <= n,
        n < (r + 1) * (r + 1),
    ensures
        r == sqrt_floor(n),
{
    lemma_sqrt_floor_props(n);
    let s = sqrt_floor(n);
    if r < s {
        assert((r + 1) * (r + 1) <= s * s) by (nonlinear_arith)
            requires
                0 <= r,
                r + 1 <= s,
        ;
    } else if s < r {
        assert((s + 1) * (s + 1) <= r * r) by (nonlinear_arith)
            requires
                0 <= s,
                s + 1 <= r,
        ;
    }
}

/// Rounded-down integer square root.
pub fn isqrt(n: u128) -> (r: u128)
    ensures
        r * r <= n,
        n < (r + 1) * (r + 1),
        r < 0x1_0000_0000_0000_0000,
        r == sqrt_floor(n as int),
{
    proof {
        lemma_sqrt_floor_props(n as int);
    }
    let mut lo: u128 = 0;
    let mut hi: u128 = 0x1_0000_0000_0000_0000;
    while hi - lo > 1
        invariant
            lo < hi,
            hi <= 0x1_0000_0000_0000_0000,
            lo * lo <= n,
            n < hi * hi,
        decreases hi - lo,
    {
        let mid: u128 = lo + (hi - lo) / 2;
        proof {
            assert(mid * mid <= 0xffff_ffff_ffff_ffff_ffff_ffff_ffff_ffff) by (nonlinear_arith)
                requires
                    mid < 0x1_0000_0000_0000_0000,
            ;
        }
        if mid * mid <= n {
            lo = mid;
        } else {
            hi = mid;
        }
    }
    proof {
        lemma_sqrt_floor_unique(n as int, lo as int);
    }
    lo
}

/// Rounded-up integer square root: the least `s` with `n <= s * s`.
pub fn isqrt_up(n: u128) -> (r: u128)
    ensures
        n <= r * r,
        r > 0 ==> (r - 1) * (r - 1) < n,
        r <= 0x1_0000_0000_0000_0000,
        r == sqrt_ceil(n as int),
        n > 0 ==> r >= 1,
{
    let f = isqrt(n);
    proof {
        if n > 0 && f == 0 {
            assert(false) by (nonlinear_arith)
                requires
                    n > 0,
                    f == 0,
                    n < (f + 1) * (f + 1),
            ;
        }
    }
    if f * f == n {
        proof {
            if f > 0 {
                assert((f - 1) * (f - 1) < f * f) by (nonlinear_arith)
                    requires
                        f > 0,
                ;
            }
        }
        f
    } else {
        f + 1
    }
}

/// An exact truncated division is inverted by multiplication.
pub proof fn lemma_tdiv_exact(a: int, b: int)
    requires
        b > 0,
        a % b == 0,
    ensures
        b * tdiv(a, b) == a,
{
    vstd::arithmetic::div_mod::lemma_fundamental_div_mod(a, b);
    if a < 0 {
        assert(-a == b * (-(a / b)) + 0) by (nonlinear_arith)
            requires
                a == b * (a / b) + 0,
        ;
        vstd::arithmetic::div_mod::lemma_fundamental_div_mod_converse(-a, b, -(a / b), 0);
        assert(b * tdiv(a, b) == a) by (nonlinear_arith)
            requires
                tdiv(a, b) == -((-a) / b),
                (-a) / b == -(a / b),
                a == b * (a / b) + 0,
        ;
    }
}

/// Clamp a wide value into the symmetric `i64` range given by `lim`.
pub fn clamp_to(v: i128, lim: i64) -> (r: i64)
    requires
        lim > 0,
    ensures
        r == clamp_mag(v as int, lim as int),
        mag(r as int) <= lim,
{
    if v > lim as i128 {
        lim
    } else if v < -(lim as i128) {
        -lim
    } else {
        v as i64
    }
}

/// A truncated quotient of a value bounded by `k * b` is bounded by `k`.
pub proof fn lemma_tdiv_mag_le(a: int, b: int, k: int)
    requires
        b > 0,
        k >= 0,
        mag(a) <= k * b,
    ensures
        mag(tdiv(a, b)) <= k,
{
    lemma_tdiv_bounds(a, b);
    vstd::arithmetic::div_mod::lemma_fundamental_div_mod(mag(a), b);
    vstd::arithmetic::div_mod::lemma_mod_bound(mag(a), b);
    vstd::arithmetic::div_mod::lemma_div_pos_is_pos(mag(a), b);
    assert(mag(a) / b <= k) by (nonlinear_arith)
        requires
            mag(a) == b * (mag(a) / b) + mag(a) % b,
            0 <= mag(a) % b < b,
            mag(a) <= k * b,
            b > 0,
            mag(a) / b >= 0,
    ;
}

/// Truncating division on wide integers, as `/` behaves in executable code.
pub fn div_t(a: i128, b: i128) -> (r: i128)
    requires
        b > 0,
        -0x7fff_ffff_ffff_ffff_ffff_ffff_ffff_ffff <= a,
    ensures
        r == tdiv(a as int, b as int),
{
    if a >= 0 {
        let q: u128 = (a as u128) / (b as u128);
        proof {
            assert(q == a as int / b as int);
        }
        q as i128
    } else {
        let n: u128 = (-a) as u128;
        let q: u128 = n / (b as u128);
        proof {
            assert(q == (-a) as int / b as int);
            assert((-a) as int / b as int <= (-a) as int) by {
                vstd::arithmetic::div_mod::lemma_div_nonincreasing((-a) as int, b as int);
            }
        }
        -(q as i128)
    }
}

} // verus!