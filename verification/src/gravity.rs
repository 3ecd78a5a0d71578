//! Pairwise gravity.  A body whose role includes the field flag attracts
//! every body whose role includes the accelerate flag by the inverse-square
//! law, scaled by a tuned gravitational constant of eleven parts in ten to
//! the seventeenth, applied over the frame's time step.

use vstd::prelude::*;
use crate::archetype::MASS_LIMIT;
use crate::body::ActorNative;
use crate::units::{
    DT_LIMIT,
    VEL_LIMIT,
    clamp_mag,
    clamp_to,
    div_t,
    isqrt,
    lemma_mul_bound,
    lemma_mag_sq,
    lemma_sqrt_bound,
    lemma_sqrt_floor_props,
    lemma_tdiv_bounds,
    mag,
    sqrt_floor,
    tdiv,
};

verus! {

/// The gravitational constant's numerator; its denominator is ten to the
/// seventeenth, folded together with the nanosecond scale into
/// `GRAV_DEN`.
pub const GRAV_NUM: i128 = 11;

/// Ten to the twenty-sixth: the constant's denominator times nanoseconds
/// per second.
pub const GRAV_DEN: i128 = 100_000_000_000_000_000_000_000_000;

/// The cube of the length scale, restoring raw units after the raw
/// displacement is divided by the raw distance cubed.
pub const GRAV_SCALE3: i128 = 1073741824;

/// The source-mass and time-step factor of the velocity change.
pub open spec fn grav_q(m: int, dt: int) -> int {
    tdiv(GRAV_NUM * m * dt, GRAV_DEN as int)
}

/// The velocity change one axis receives: the factor above, re-scaled to
/// raw units, times the displacement component, over the cubed distance.
pub open spec fn grav_dv(m: int, dt: int, d: int, r3: int) -> int {
    tdiv(grav_q(m, dt) * (GRAV_SCALE3 as int) * d, r3)
}

/// Whether `src` attracts `dst`.
pub open spec fn attracts(src: ActorNative, dst: ActorNative) -> bool {
    src.specs.gravity.bits() & 2 != 0 && dst.specs.gravity.bits() & 1 != 0
}

/// Apply one frame of mutual gravity to a pair.  Each qualifying side
/// gains the inverse-square velocity change along the displacement; a
/// coincident pair is left untouched, guarding the singularity the
/// continuous law has at zero separation.
pub fn gravitate(a: &mut ActorNative, b: &mut ActorNative, dt: u64)
    requires
        old(a).wf(),
        old(b).wf(),
        dt <= DT_LIMIT,
    ensures
        final(a).wf(),
        final(b).wf(),
        *final(a) == (ActorNative { dx: final(a).dx, dy: final(a).dy, ..*old(a) }),
        *final(b) == (ActorNative { dx: final(b).dx, dy: final(b).dy, ..*old(b) }),
        ({
            let dx = old(a).x - old(b).x;
            let dy = old(a).y - old(b).y;
            let d2 = dx * dx + dy * dy;
            let r3 = d2 * sqrt_floor(d2);
            let live = d2 > 0 && (attracts(*old(a), *old(b)) || attracts(*old(b), *old(a)));
            &&& final(b).dx == if live && attracts(*old(a), *old(b)) {
                clamp_mag(
                    old(b).dx + grav_dv(old(a).specs.mass as int, dt as int, dx, r3),
                    VEL_LIMIT as int,
                )
            } else {
                old(b).dx as int
            }
            &&& final(b).dy == if live && attracts(*old(a), *old(b)) {
                clamp_mag(
                    old(b).dy + grav_dv(old(a).specs.mass as int, dt as int, dy, r3),
                    VEL_LIMIT as int,
                )
            } else {
                old(b).dy as int
            }
            &&& final(a).dx == if live && attracts(*old(b), *old(a)) {
                clamp_mag(
                    old(a).dx - grav_dv(old(b).specs.mass as int, dt as int, dx, r3),
                    VEL_LIMIT as int,
                )
            } else {
                old(a).dx as int
            }
            &&& final(a).dy == if live && attracts(*old(b), *old(a)) {
                clamp_mag(
                    old(a).dy - grav_dv(old(b).specs.mass as int, dt as int, dy, r3),
                    VEL_LIMIT as int,
                )
            } else {
                old(a).dy as int
            }
        }),
{
    let a_field_b_acc = a.specs.gravity.supports(crate::archetype::Gravity::field())
        && b.specs.gravity.supports(crate::archetype::Gravity::accelerate());
    let b_field_a_acc = b.specs.gravity.supports(crate::archetype::Gravity::field())
        && a.specs.gravity.supports(crate::archetype::Gravity::accelerate());
    if !(a_field_b_acc || b_field_a_acc) {
        return ;
    }
    let dx: i128 = a.x as i128 - b.x as i128;
    let dy: i128 = a.y as i128 - b.y as i128;
    proof {
        lemma_mul_bound(dx as int, dx as int, 0x200_0000_0000, 0x200_0000_0000);
        lemma_mul_bound(dy as int, dy as int, 0x200_0000_0000, 0x200_0000_0000);
        lemma_mag_sq(dx as int);
        lemma_mag_sq(dy as int);
    }
    let d2: i128 = dx * dx + dy * dy;
    if d2 == 0 {
        return ;
    }
    let dist: i128 = isqrt(d2 as u128) as i128;
    proof {
        lemma_sqrt_floor_props(d2 as int);
        lemma_sqrt_bound(d2 as int, dist as int, 0x400_0000_0000);
        assert((0x400_0000_0000int) * (0x400_0000_0000int) == 0x10_0000_0000_0000_0000_0000int)
            by (nonlinear_arith);
        lemma_mul_bound(d2 as int, dist as int, 0x10_0000_0000_0000_0000_0000, 0x400_0000_0000);
        if dist == 0 {
            assert(false) by (nonlinear_arith)
                requires
                    d2 >= 1,
                    dist == 0,
                    d2 < (dist + 1) * (dist + 1),
            ;
        }
    }
    let r3: i128 = d2 * dist;
    proof {
        assert(r3 >= 1) by (nonlinear_arith)
            requires
                r3 == d2 * dist,
                d2 >= 1,
                dist >= 1,
        ;
    }
    if a_field_b_acc {
        let dvx = grav_axis(a.specs.mass, dt, dx, r3);
        let dvy = grav_axis(a.specs.mass, dt, dy, r3);
        b.dx = clamp_to(b.dx as i128 + dvx, VEL_LIMIT);
        b.dy = clamp_to(b.dy as i128 + dvy, VEL_LIMIT);
    }
    if b_field_a_acc {
        let dvx = grav_axis(b.specs.mass, dt, dx, r3);
        let dvy = grav_axis(b.specs.mass, dt, dy, r3);
        a.dx = clamp_to(a.dx as i128 - dvx, VEL_LIMIT);
        a.dy = clamp_to(a.dy as i128 - dvy, VEL_LIMIT);
    }
}

/// One axis of the inverse-square velocity change.
fn grav_axis(m: i128, dt: u64, d: i128, r3: i128) -> (r: i128)
    requires
        1 <= m <= MASS_LIMIT,
        dt <= DT_LIMIT,
        mag(d as int) <= 0x400_0000_0000,
        r3 >= 1,
    ensures
        r == grav_dv(m as int, dt as int, d as int, r3 as int),
        mag(r as int) <= 1_000_000_000_000_000_000_000_000_000_000_000,
{
    proof {
        assert(mag(GRAV_NUM * m * (dt as int)) <= 20_000_000_000_000_000_000_000_000_000_000_000int)
            by (nonlinear_arith)
            requires
                GRAV_NUM == 11,
                1 <= m <= 200_000_000_000_000_000_000_000int,
                0 <= dt <= 4_000_000_000u64,
        ;
        assert(20_000_000_000_000_000_000_000_000_000_000_000int == 200_000_000
            * 100_000_000_000_000_000_000_000_000int) by (nonlinear_arith);
        crate::units::lemma_tdiv_mag_le(
            GRAV_NUM * m * (dt as int),
            100_000_000_000_000_000_000_000_000,
            200_000_000,
        );
        assert(GRAV_DEN == 100_000_000_000_000_000_000_000_000int);
    }
    let q: i128 = div_t(GRAV_NUM * m * (dt as i128), GRAV_DEN);
    proof {
        assert(mag(q * (GRAV_SCALE3 as int) * (d as int))
            <= 944_473_296_573_929_042_227_200_000_000_000int) by (nonlinear_arith)
            requires
                mag(q as int) <= 200_000_000,
                GRAV_SCALE3 == 1073741824,
                mag(d as int) <= 0x400_0000_0000,
        ;
        lemma_tdiv_bounds(q * (GRAV_SCALE3 as int) * (d as int), r3 as int);
        vstd::arithmetic::div_mod::lemma_div_nonincreasing(
            mag(q * (GRAV_SCALE3 as int) * (d as int)),
            r3 as int,
        );
    }
    div_t(q * GRAV_SCALE3 * d, r3)
}

} // verus!
