//! The mutable physical state of one actor, and the integrator that
//! advances it.
//!
//! The integrator is split into two phases around the one value the engine
//! cannot compute itself: the cosine/sine pair of the step's midpoint
//! heading.  `advance_turn` settles the angular part and returns that
//! midpoint heading; the caller evaluates its unit vector and hands it to
//! `advance_linear`, which settles thrust, the speed ceiling and position.

use vstd::prelude::*;
use crate::archetype::{ActorSpec, SPEC_RATE_LIMIT, SPEC_TURN_LIMIT};
use crate::timing::FireRate;
use crate::units::{
    ANG_VEL_LIMIT,
    DT_LIMIT,
    NANOS,
    POS_LIMIT,
    TAU_RAW,
    UNIT_SCALE,
    VEL_LIMIT,
    clamp_mag,
    div_t,
    isqrt,
    isqrt_up,
    lemma_mul_bound,
    lemma_sqrt_bound,
    lemma_sqrt_ceil_props,
    lemma_sqrt_floor_props,
    lemma_tdiv_bounds,
    mag,
    sqrt_ceil,
    sqrt_floor,
    tdiv,
};

verus! {

/// Full steering or full throttle on the fixed-point request scale.
pub const CONTROL_ONE: i64 = 1024;

/// Saturating add on crew or battery counters.
pub open spec fn sat_add_u8(a: u8, b: u8) -> u8 {
    if a + b > 255 {
        255u8
    } else {
        (a + b) as u8
    }
}

/// Saturating subtract on crew or battery counters.
pub open spec fn sat_sub_u8(a: u8, b: u8) -> u8 {
    if a >= b {
        (a - b) as u8
    } else {
        0u8
    }
}

/// One step of moving a value toward a target without overshooting.
pub open spec fn approach(cur: int, target: int, step: int) -> int {
    if cur < target {
        if cur + step > target {
            target
        } else {
            cur + step
        }
    } else {
        if cur - step < target {
            target
        } else {
            cur - step
        }
    }
}

/// Euclidean wrap of an angle into `[0, TAU_RAW)`.
pub open spec fn wrap_angle_spec(a: int) -> int {
    a % (TAU_RAW as int)
}

/// The velocity gained in one step from thrust along one axis of the
/// midpoint-heading unit vector.
pub open spec fn thrust_dv(specs: ActorSpec, throttle: int, dt: int, u: int) -> int {
    tdiv(
        throttle * specs.acceleration * u * dt,
        CONTROL_ONE * (UNIT_SCALE as int) * (NANOS as int),
    )
}

/// The speed-ceiling rule: a velocity that has grown past the rated
/// maximum is rescaled toward a decelerating limit - the speed at the
/// start of the step less one step of thrust deceleration, but never below
/// the rated maximum - so an overloaded actor slows smoothly instead of
/// being cut to the ceiling at once.
pub open spec fn cap_speed(
    specs: ActorSpec,
    v0x: int,
    v0y: int,
    vx: int,
    vy: int,
    dt: int,
) -> (int, int) {
    let s2 = vx * vx + vy * vy;
    if s2 > specs.maxspeed * specs.maxspeed {
        let s_up = sqrt_ceil(s2);
        let limit0 = sqrt_floor(v0x * v0x + v0y * v0y) - tdiv(
            specs.acceleration * dt,
            NANOS as int,
        );
        if s_up > limit0 {
            let limit = if limit0 < specs.maxspeed {
                specs.maxspeed as int
            } else {
                limit0
            };
            (tdiv(vx * limit, s_up), tdiv(vy * limit, s_up))
        } else {
            (vx, vy)
        }
    } else {
        (vx, vy)
    }
}

/// The velocity at the end of one linear step: thrust along the midpoint
/// heading, then the speed ceiling, then the engine's hard working bound.
pub open spec fn linear_velocity_after(
    specs: ActorSpec,
    v0x: int,
    v0y: int,
    throttle: int,
    dt: int,
    ux: int,
    uy: int,
) -> (int, int) {
    if throttle != 0 {
        let vx = v0x + thrust_dv(specs, throttle, dt, ux);
        let vy = v0y + thrust_dv(specs, throttle, dt, uy);
        let c = cap_speed(specs, v0x, v0y, vx, vy, dt);
        (clamp_mag(c.0, VEL_LIMIT as int), clamp_mag(c.1, VEL_LIMIT as int))
    } else {
        (v0x, v0y)
    }
}

/// The angular speed a full-steer request asks for, scaled by the actual
/// steering fraction.
pub open spec fn turn_target(specs: ActorSpec, steer: int) -> int {
    tdiv(specs.turnspeed * steer, CONTROL_ONE as int)
}

/// Euclidean wrap into `[0, TAU_RAW)`, executable form.
pub fn wrap_angle(v: i128) -> (r: i64)
    requires
        mag(v as int) < 0x1000_0000_0000_0000_0000_0000_0000_0000,
    ensures
        r == wrap_angle_spec(v as int),
        0 <= r < TAU_RAW,
{
    let t: i128 = TAU_RAW as i128;
    let q = div_t(v, t);
    proof {
        lemma_tdiv_bounds(v as int, t as int);
    }
    let m: i128 = v - q * t;
    let m2: i128 = if m < 0 {
        m + t
    } else {
        m
    };
    proof {
        if m >= 0 {
            vstd::arithmetic::div_mod::lemma_fundamental_div_mod_converse(
                v as int,
                t as int,
                q as int,
                m as int,
            );
        } else {
            vstd::arithmetic::div_mod::lemma_fundamental_div_mod_converse(
                v as int,
                t as int,
                q as int - 1,
                m2 as int,
            );
        }
    }
    m2 as i64
}

/// Per-instance mutable state.
#[derive(Clone, Copy, Debug)]
pub struct ActorNative {
    /// Position, raw length units.
    pub x: i64,
    pub y: i64,
    /// Heading, raw angle units in `[0, TAU_RAW)`.
    pub heading: i64,
    /// Angular velocity, raw angle units per second.
    pub angularvelocity: i64,
    /// Linear velocity, raw velocity units.
    pub dx: i64,
    pub dy: i64,
    /// The constants of this actor's class.
    pub specs: ActorSpec,
    /// Team tag; differing tags are hostile, `None` is neutral.
    pub affiliation: Option<u8>,
    /// Set once the actor is to be removed from the live set.
    pub dead: bool,
    /// Whether the camera tracks this actor.
    pub maintaincamera: bool,
    /// Crew left; the actor dies when this first reaches zero.
    pub crew: u8,
    /// Battery charge available for weapons.
    pub battery: u8,
    /// Cooldown pacing the battery recharge ticks.
    pub recharge: FireRate,
}

impl ActorNative {
    /// The state invariant every engine function preserves.
    pub open spec fn wf(self) -> bool {
        &&& self.specs.wf()
        &&& mag(self.x as int) <= POS_LIMIT
        &&& mag(self.y as int) <= POS_LIMIT
        &&& 0 <= self.heading < TAU_RAW
        &&& mag(self.angularvelocity as int) <= ANG_VEL_LIMIT
        &&& mag(self.dx as int) <= VEL_LIMIT
        &&& mag(self.dy as int) <= VEL_LIMIT
        &&& self.crew <= self.specs.maxcrew
        &&& self.battery <= self.specs.maxbattery
        &&& self.recharge.interval() == self.specs.chargetime
        &&& match self.affiliation {
            Some(a) => a != 0,
            None => true,
        }
    }

    /// A fresh actor body at a position and heading, fully crewed and
    /// charged, at rest.
    pub fn new(position: ((i64, i64), i64), specs: ActorSpec, affiliation: Option<u8>, now: u64) -> (r:
        ActorNative)
        requires
            specs.wf(),
            mag(position.0.0 as int) <= POS_LIMIT,
            mag(position.0.1 as int) <= POS_LIMIT,
            0 <= position.1 < TAU_RAW,
            affiliation is Some ==> affiliation.unwrap() != 0,
        ensures
            r.wf(),
            r.x == position.0.0,
            r.y == position.0.1,
            r.heading == position.1,
            r.angularvelocity == 0,
            r.dx == 0,
            r.dy == 0,
            r.specs == specs,
            r.affiliation == affiliation,
            !r.dead,
            !r.maintaincamera,
            r.crew == specs.maxcrew,
            r.battery == specs.maxbattery,
            r.recharge.next_allowed() == now,
            r.recharge.interval() == specs.chargetime,
    {
        let ((x, y), heading) = position;
        ActorNative {
            x,
            y,
            heading,
            angularvelocity: 0,
            dx: 0,
            dy: 0,
            specs,
            affiliation,
            dead: false,
            maintaincamera: false,
            crew: specs.maxcrew,
            battery: specs.maxbattery,
            recharge: FireRate::new(now, specs.chargetime),
        }
    }

    /// Apply contact damage: crew falls, saturating at zero, and the body
    /// dies exactly when the crew first reaches zero.  Classes that do not
    /// take damage are untouched.
    pub fn damage(&mut self, damage: u8)
        ensures
            *final(self) == (ActorNative {
                crew: if old(self).specs.takesdamage {
                    sat_sub_u8(old(self).crew, damage)
                } else {
                    old(self).crew
                },
                dead: old(self).dead || (old(self).specs.takesdamage && sat_sub_u8(
                    old(self).crew,
                    damage,
                ) == 0),
                ..*old(self)
            }),
            old(self).wf() ==> final(self).wf(),
    {
        if self.specs.takesdamage {
            self.crew = if self.crew >= damage {
                self.crew - damage
            } else {
                0
            };
            if self.crew == 0 {
                self.dead = true;
            }
        }
    }

    /// Battery recharge: when below capacity and the recharge cooldown has lapsed,
    /// gain one tick of charge, clamped to capacity, and restart the cooldown.
    pub fn recharge_battery(&mut self, now: u64)
        requires
            old(self).wf(),
            now + old(self).specs.chargetime <= u64::MAX,
        ensures
            *final(self) == (ActorNative {
                battery: final(self).battery,
                recharge: final(self).recharge,
                ..*old(self)
            }),
            final(self).wf(),
            ({
                let fires = old(self).battery != old(self).specs.maxbattery && now > old(
                    self,
                ).recharge.next_allowed();
                &&& final(self).battery == if fires {
                    if sat_add_u8(old(self).battery, old(self).specs.chargevalue) > old(
                        self,
                    ).specs.maxbattery {
                        old(self).specs.maxbattery
                    } else {
                        sat_add_u8(old(self).battery, old(self).specs.chargevalue)
                    }
                } else {
                    old(self).battery
                }
                &&& final(self).recharge.interval() == old(self).recharge.interval()
                &&& final(self).recharge.next_allowed() == if fires {
                    now + old(self).recharge.interval()
                } else {
                    old(self).recharge.next_allowed() as int
                }
            }),
    {
        if self.battery != self.specs.maxbattery && self.recharge.try_fire(now) {
            let summed: u8 = if self.battery as u16 + self.specs.chargevalue as u16 > 255 {
                255
            } else {
                self.battery + self.specs.chargevalue
            };
            self.battery = if summed > self.specs.maxbattery {
                self.specs.maxbattery
            } else {
                summed
            };
        }
    }

    /// The angular half of one integration step.  The angular velocity
    /// moves toward the steering target at the class's turn acceleration
    /// without overshooting it, and the heading advances by the average of
    /// the start and end angular velocity (trapezoidal), wrapped into
    /// `[0, TAU_RAW)`.  Returns the midpoint heading of the step, whose
    /// unit vector the caller needs for `advance_linear`.
    pub fn advance_turn(&mut self, steer: i64, dt: u64) -> (mid: i64)
        requires
            old(self).wf(),
            mag(steer as int) <= CONTROL_ONE,
            dt <= DT_LIMIT,
        ensures
            final(self).wf(),
            *final(self) == (ActorNative {
                angularvelocity: final(self).angularvelocity,
                heading: final(self).heading,
                ..*old(self)
            }),
            final(self).angularvelocity == approach(
                old(self).angularvelocity as int,
                turn_target(old(self).specs, steer as int),
                tdiv(old(self).specs.turnacceleration * dt, NANOS as int),
            ),
            ({
                let center = tdiv(
                    old(self).angularvelocity + final(self).angularvelocity as int,
                    2,
                );
                &&& final(self).heading == wrap_angle_spec(
                    old(self).heading + tdiv(center * dt, NANOS as int),
                )
                &&& mid == wrap_angle_spec(
                    old(self).heading + tdiv(center * dt, 2 * NANOS as int),
                )
            }),
            0 <= mid < TAU_RAW,
    {
        proof {
            lemma_mul_bound(
                self.specs.turnspeed as int,
                steer as int,
                SPEC_TURN_LIMIT as int,
                CONTROL_ONE as int,
            );
            lemma_tdiv_bounds(self.specs.turnspeed * steer, CONTROL_ONE as int);
            lemma_mul_bound(
                self.specs.turnacceleration as int,
                dt as int,
                SPEC_TURN_LIMIT as int,
                DT_LIMIT as int,
            );
            lemma_tdiv_bounds(self.specs.turnacceleration * dt, NANOS as int);
        }
        let target: i128 = div_t(
            (self.specs.turnspeed as i128) * (steer as i128),
            CONTROL_ONE as i128,
        );
        let step: i128 = div_t(
            (self.specs.turnacceleration as i128) * (dt as i128),
            NANOS as i128,
        );
        let start = self.angularvelocity;
        let newav: i128 = if (start as i128) < target {
            let c = start as i128 + step;
            if c > target {
                target
            } else {
                c
            }
        } else {
            let c = start as i128 - step;
            if c < target {
                target
            } else {
                c
            }
        };
        self.angularvelocity = newav as i64;
        proof {
            lemma_tdiv_bounds(start + newav, 2);
        }
        let center: i128 = div_t(start as i128 + newav, 2);
        proof {
            lemma_mul_bound(
                center as int,
                dt as int,
                2 * ANG_VEL_LIMIT as int,
                DT_LIMIT as int,
            );
            lemma_tdiv_bounds(center * (dt as i128), NANOS as int);
            lemma_tdiv_bounds(center * (dt as i128), 2 * NANOS as int);
        }
        let dhead: i128 = div_t(center * (dt as i128), NANOS as i128);
        let middelta: i128 = div_t(center * (dt as i128), 2 * (NANOS as i128));
        let mid = wrap_angle(self.heading as i128 + middelta);
        self.heading = wrap_angle(self.heading as i128 + dhead);
        mid
    }

    /// The linear half of one integration step.  `(ux, uy)` is the unit
    /// vector of the midpoint heading returned by `advance_turn`, in
    /// `UNIT_SCALE` fixed point.  Thrust accelerates along it, the speed
    /// ceiling rule of `cap_speed` applies, and the position advances by
    /// the trapezoidal average of the start and end velocity.
    pub fn advance_linear(&mut self, throttle: i64, dt: u64, ux: i64, uy: i64)
        requires
            old(self).wf(),
            0 <= throttle <= CONTROL_ONE,
            dt <= DT_LIMIT,
            mag(ux as int) <= UNIT_SCALE,
            mag(uy as int) <= UNIT_SCALE,
        ensures
            final(self).wf(),
            *final(self) == (ActorNative {
                x: final(self).x,
                y: final(self).y,
                dx: final(self).dx,
                dy: final(self).dy,
                ..*old(self)
            }),
            ({
                let v = linear_velocity_after(
                    old(self).specs,
                    old(self).dx as int,
                    old(self).dy as int,
                    throttle as int,
                    dt as int,
                    ux as int,
                    uy as int,
                );
                &&& final(self).dx == v.0
                &&& final(self).dy == v.1
            }),
            final(self).x == clamp_mag(
                old(self).x + tdiv((old(self).dx + final(self).dx) * dt, 2 * NANOS as int),
                POS_LIMIT as int,
            ),
            final(self).y == clamp_mag(
                old(self).y + tdiv((old(self).dy + final(self).dy) * dt, 2 * NANOS as int),
                POS_LIMIT as int,
            ),
    {
        let startdx = self.dx;
        let startdy = self.dy;
        if throttle != 0 {
            let den: i128 = 1_073_741_824_000_000_000;
            proof {
                assert(den == CONTROL_ONE * (UNIT_SCALE as int) * (NANOS as int))
                    by (nonlinear_arith)
                    requires
                        den == 1_073_741_824_000_000_000int,
                        CONTROL_ONE == 1024,
                        UNIT_SCALE == 1048576,
                        NANOS == 1000000000,
                ;
                lemma_mul_bound(
                    throttle as int,
                    self.specs.acceleration as int,
                    CONTROL_ONE as int,
                    SPEC_RATE_LIMIT as int,
                );
            }
            let t1: i128 = (throttle as i128) * (self.specs.acceleration as i128);
            proof {
                lemma_mul_bound(
                    t1 as int,
                    ux as int,
                    CONTROL_ONE * SPEC_RATE_LIMIT as int,
                    UNIT_SCALE as int,
                );
                lemma_mul_bound(
                    t1 as int,
                    uy as int,
                    CONTROL_ONE * SPEC_RATE_LIMIT as int,
                    UNIT_SCALE as int,
                );
                lemma_mul_bound(
                    t1 * ux,
                    dt as int,
                    CONTROL_ONE * SPEC_RATE_LIMIT * UNIT_SCALE as int,
                    DT_LIMIT as int,
                );
                lemma_mul_bound(
                    t1 * uy,
                    dt as int,
                    CONTROL_ONE * SPEC_RATE_LIMIT * UNIT_SCALE as int,
                    DT_LIMIT as int,
                );
                lemma_tdiv_bounds(t1 * ux * dt, den as int);
                lemma_tdiv_bounds(t1 * uy * dt, den as int);
            }
            let dvx: i128 = div_t(t1 * (ux as i128) * (dt as i128), den);
            let dvy: i128 = div_t(t1 * (uy as i128) * (dt as i128), den);
            let vx0: i128 = startdx as i128 + dvx;
            let vy0: i128 = startdy as i128 + dvy;
            let mut vx: i128 = vx0;
            let mut vy: i128 = vy0;
            proof {
                lemma_mul_bound(vx as int, vx as int, 0x4_0000_0000_0000, 0x4_0000_0000_0000);
                lemma_mul_bound(vy as int, vy as int, 0x4_0000_0000_0000, 0x4_0000_0000_0000);
                assert(vx0 * vx0 >= 0 && vy0 * vy0 >= 0) by (nonlinear_arith);
                lemma_mul_bound(
                    self.specs.maxspeed as int,
                    self.specs.maxspeed as int,
                    SPEC_RATE_LIMIT as int,
                    SPEC_RATE_LIMIT as int,
                );
                assert((self.specs.maxspeed as int) * (self.specs.maxspeed as int) >= 0)
                    by (nonlinear_arith);
            }
            let s2: i128 = vx * vx + vy * vy;
            let ms2: i128 = (self.specs.maxspeed as i128) * (self.specs.maxspeed as i128);
            if s2 > ms2 {
                let s_up: i128 = isqrt_up(s2 as u128) as i128;
                proof {
                    lemma_mul_bound(
                        startdx as int,
                        startdx as int,
                        VEL_LIMIT as int,
                        VEL_LIMIT as int,
                    );
                    lemma_mul_bound(
                        startdy as int,
                        startdy as int,
                        VEL_LIMIT as int,
                        VEL_LIMIT as int,
                    );
                    assert(startdx as int * startdx as int >= 0 && startdy as int * startdy as int
                        >= 0) by (nonlinear_arith);
                    lemma_mul_bound(
                        self.specs.acceleration as int,
                        dt as int,
                        SPEC_RATE_LIMIT as int,
                        DT_LIMIT as int,
                    );
                    lemma_tdiv_bounds(self.specs.acceleration * dt, NANOS as int);
                }
                let start_s: i128 = isqrt(
                    ((startdx as i128) * (startdx as i128) + (startdy as i128) * (startdy
                        as i128)) as u128,
                ) as i128;
                proof {
                    let n0 = (startdx as int) * (startdx as int) + (startdy as int) * (startdy
                        as int);
                    lemma_sqrt_floor_props(n0);
                    assert(n0 <= (0x2_0000_0000_0000int) * (0x2_0000_0000_0000int))
                        by (nonlinear_arith)
                        requires
                            n0 <= 0x2_0000_0000_0000_0000_0000,
                    ;
                    lemma_sqrt_bound(n0, sqrt_floor(n0), 0x2_0000_0000_0000);
                }
                let mut limit: i128 = start_s - div_t(
                    (self.specs.acceleration as i128) * (dt as i128),
                    NANOS as i128,
                );
                if s_up > limit {
                    if limit < self.specs.maxspeed as i128 {
                        limit = self.specs.maxspeed as i128;
                    }
                    proof {
                        lemma_mul_bound(vx as int, limit as int, 0x4_0000_0000_0000, 0x4_0000_0000_0000);
                        lemma_mul_bound(vy as int, limit as int, 0x4_0000_0000_0000, 0x4_0000_0000_0000);
                        lemma_tdiv_bounds(vx * limit, s_up as int);
                        lemma_tdiv_bounds(vy * limit, s_up as int);
                    }
                    vx = div_t(vx * limit, s_up);
                    vy = div_t(vy * limit, s_up);
                }
            }
            self.dx = crate::units::clamp_to(vx, VEL_LIMIT);
            self.dy = crate::units::clamp_to(vy, VEL_LIMIT);
        }
        proof {
            lemma_mul_bound(
                startdx + self.dx as int,
                dt as int,
                2 * VEL_LIMIT as int,
                DT_LIMIT as int,
            );
            lemma_mul_bound(
                startdy + self.dy as int,
                dt as int,
                2 * VEL_LIMIT as int,
                DT_LIMIT as int,
            );
            lemma_tdiv_bounds((startdx + self.dx as int) * dt, 2 * NANOS as int);
            lemma_tdiv_bounds((startdy + self.dy as int) * dt, 2 * NANOS as int);
        }
        let px: i128 = self.x as i128 + div_t(
            ((startdx as i128) + (self.dx as i128)) * (dt as i128),
            2 * (NANOS as i128),
        );
        let py: i128 = self.y as i128 + div_t(
            ((startdy as i128) + (self.dy as i128)) * (dt as i128),
            2 * (NANOS as i128),
        );
        self.x = crate::units::clamp_to(px, POS_LIMIT);
        self.y = crate::units::clamp_to(py, POS_LIMIT);
    }
}

/// Squaring a product inequality of nonnegative factors.
proof fn lemma_scaled_sq_le(a: int, b: int, s: int, l: int)
    requires
        a * s <= b * l,
        a >= 0,
        b >= 0,
        s >= 1,
        l >= 0,
    ensures
        a * a * (s * s) <= (b * b) * (l * l),
{
    assert((a * s) * (a * s) <= (b * l) * (b * l)) by (nonlinear_arith)
        requires
            a * s <= b * l,
            a >= 0,
            s >= 1,
            b >= 0,
            l >= 0,
    ;
    assert(a * a * (s * s) == (a * s) * (a * s)) by (nonlinear_arith);
    assert((b * b) * (l * l) == (b * l) * (b * l)) by (nonlinear_arith);
}

/// Turn-rate approach never overshoots: one step of the angular-velocity
/// rule lands on or strictly between the current value and the steering
/// target, so the distance to the target never grows.
pub proof fn lemma_turn_no_overshoot(cur: int, target: int, step: int)
    requires
        step >= 0,
    ensures
        mag(approach(cur, target, step) - target) <= mag(cur - target),
        cur <= target ==> cur <= approach(cur, target, step) <= target,
        cur >= target ==> target <= approach(cur, target, step) <= cur,
{
}

/// Heading wrap: a well-formed body's heading always lies in
/// `[0, TAU_RAW)`, and every engine function keeps it well formed, so the
/// bound holds after any number of integration steps.
pub proof fn lemma_heading_wrapped(b: ActorNative)
    requires
        b.wf(),
    ensures
        0 <= b.heading < TAU_RAW,
{
}

/// Speed-cap convergence: whenever a step's post-thrust velocity exceeds
/// the rated maximum speed, the capped velocity stays within the
/// decelerating limit - the speed at the start of the step less one step
/// of thrust deceleration, but never less than the rated maximum - so the
/// excess shrinks by at most `acceleration * dt` per step and the ceiling
/// itself is never undershot by the rule.
pub proof fn lemma_speed_cap(specs: ActorSpec, v0x: int, v0y: int, vx: int, vy: int, dt: int)
    requires
        specs.wf(),
        0 <= dt <= DT_LIMIT,
        vx * vx + vy * vy > specs.maxspeed * specs.maxspeed,
    ensures
        ({
            let c = cap_speed(specs, v0x, v0y, vx, vy, dt);
            let limit0 = sqrt_floor(v0x * v0x + v0y * v0y) - tdiv(
                specs.acceleration * dt,
                NANOS as int,
            );
            let limit = if limit0 < specs.maxspeed {
                specs.maxspeed as int
            } else {
                limit0
            };
            &&& c.0 * c.0 + c.1 * c.1 <= limit * limit
            &&& limit >= specs.maxspeed
        }),
{
    let s2 = vx * vx + vy * vy;
    let ms2 = specs.maxspeed * specs.maxspeed;
    crate::units::lemma_mag_sq(specs.maxspeed as int);
    crate::units::lemma_mag_sq(vx);
    crate::units::lemma_mag_sq(vy);
    let s_up = sqrt_ceil(s2);
    lemma_sqrt_ceil_props(s2);
    let limit0 = sqrt_floor(v0x * v0x + v0y * v0y) - tdiv(specs.acceleration * dt, NANOS as int);
    let limit = if limit0 < specs.maxspeed {
        specs.maxspeed as int
    } else {
        limit0
    };
    let c = cap_speed(specs, v0x, v0y, vx, vy, dt);
    if s_up > limit0 {
        assert(c.0 == tdiv(vx * limit, s_up) && c.1 == tdiv(vy * limit, s_up));
        lemma_tdiv_bounds(vx * limit, s_up);
        lemma_tdiv_bounds(vy * limit, s_up);
        vstd::arithmetic::div_mod::lemma_fundamental_div_mod(mag(vx * limit), s_up);
        vstd::arithmetic::div_mod::lemma_mod_bound(mag(vx * limit), s_up);
        vstd::arithmetic::div_mod::lemma_fundamental_div_mod(mag(vy * limit), s_up);
        vstd::arithmetic::div_mod::lemma_mod_bound(mag(vy * limit), s_up);
        crate::units::lemma_mag_mul(vx, limit);
        crate::units::lemma_mag_mul(vy, limit);
        crate::units::lemma_mag_sq(c.0);
        crate::units::lemma_mag_sq(c.1);
        assert(mag(c.0) * s_up <= mag(vx) * limit) by (nonlinear_arith)
            requires
                s_up >= 1,
                mag(c.0) <= mag(vx * limit) / s_up,
                mag(vx * limit) - s_up + 1 <= s_up * (mag(vx * limit) / s_up) <= mag(vx * limit),
                mag(c.0) >= 0,
                mag(vx * limit) == mag(vx) * limit,
        ;
        assert(mag(c.1) * s_up <= mag(vy) * limit) by (nonlinear_arith)
            requires
                s_up >= 1,
                mag(c.1) <= mag(vy * limit) / s_up,
                mag(vy * limit) - s_up + 1 <= s_up * (mag(vy * limit) / s_up) <= mag(vy * limit),
                mag(c.1) >= 0,
                mag(vy * limit) == mag(vy) * limit,
        ;
        lemma_scaled_sq_le(mag(c.0), mag(vx), s_up, limit);
        lemma_scaled_sq_le(mag(c.1), mag(vy), s_up, limit);
        assert((c.0 * c.0 + c.1 * c.1) * (s_up * s_up) == c.0 * c.0 * (s_up * s_up) + c.1 * c.1 * (
        s_up * s_up)) by (nonlinear_arith);
        assert((vx * vx) * (limit * limit) + (vy * vy) * (limit * limit) == s2 * (limit * limit))
            by (nonlinear_arith)
            requires
                vx * vx + vy * vy == s2,
        ;
        assert(s2 * (limit * limit) <= (s_up * s_up) * (limit * limit)) by (nonlinear_arith)
            requires
                s2 <= s_up * s_up,
                limit >= 0,
        ;
        assert((c.0 * c.0 + c.1 * c.1) * (s_up * s_up) <= (s_up * s_up) * (limit * limit));
        assert(c.0 * c.0 + c.1 * c.1 <= limit * limit) by (nonlinear_arith)
            requires
                (c.0 * c.0 + c.1 * c.1) * (s_up * s_up) <= (s_up * s_up) * (limit * limit),
                s_up >= 1,
        ;
    } else {
        assert(c.0 == vx && c.1 == vy);
        assert(s2 <= limit * limit) by (nonlinear_arith)
            requires
                s2 <= s_up * s_up,
                0 <= s_up <= limit0 <= limit,
        ;
    }
}

} // verus!
