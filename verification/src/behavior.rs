//! The per-actor behaviour pipeline: a generator turns external key state
//! into control input, and a translator turns input and neighbourhood
//! into a steering/throttle request, spawned actors, and collision
//! semantics.

use vstd::prelude::*;
use crate::actor::Actor;
use crate::body::{ActorNative, CONTROL_ONE, sat_sub_u8};
use crate::input::{Input, KeyState};
use crate::timing::{FireRate, Timer};
use crate::units::{
    POS_LIMIT,
    UNIT_SCALE,
    clamp_mag,
    clamp_to,
    div_t,
    isqrt,
    lemma_mag_sq,
    lemma_mul_bound,
    lemma_sqrt_floor_props,
    lemma_tdiv_bounds,
    mag,
    sqrt_floor,
    tdiv,
};

verus! {

/// How a translator answers a contact: `Silent` vetoes the physical
/// bounce, `Kinetic` allows it; the bounce happens only when both sides
/// answer `Kinetic`.
#[derive(Clone, Copy, Debug, PartialEq, Eq, Structural)]
pub enum CollisionType {
    Silent,
    Kinetic,
}

/// A snapshot of a neighbour, all a homing projectile reads of the world.
#[derive(Clone, Copy, Debug)]
pub struct ActorView {
    pub affiliation: Option<u8>,
    pub x: i64,
    pub y: i64,
}

/// What one translator asks of the frame: steering and throttle on the
/// `CONTROL_ONE` fixed-point scale, and actors to add to the live set.
pub struct Request {
    pub steer: i64,
    pub throttle: i64,
    pub summon: Vec<Actor>,
}

/// The no-op input source.
#[derive(Clone, Copy)]
pub struct NoControl;

/// The player's input source: passes the live key state through.
#[derive(Clone, Copy)]
pub struct UserControl;

/// The closed set of input sources.
#[derive(Clone, Copy)]
pub enum ActorGeneratorEnum {
    NoControl(NoControl),
    UserControl(UserControl),
}

impl ActorGeneratorEnum {
    /// Produce this frame's raw input.
    pub fn update(&self, keys: KeyState) -> (r: Input)
        ensures
            r.is_left() == (self is UserControl && keys.left),
            r.is_right() == (self is UserControl && keys.right),
            r.is_thrust() == (self is UserControl && keys.thrust),
            r.is_fire() == (self is UserControl && keys.fire),
            r.is_secondary() == (self is UserControl && keys.secondary),
    {
        match self {
            ActorGeneratorEnum::NoControl(_) => Input::new(false, false, false, false, false),
            ActorGeneratorEnum::UserControl(_) => Input::new(
                keys.left,
                keys.right,
                keys.thrust,
                keys.fire,
                keys.secondary,
            ),
        }
    }
}

/// Cooldown between cruiser missile launches, nanoseconds.
pub const CRUISER_FIRE_COOLDOWN: u64 = 416_666_667;

/// Lifetime of a cruiser missile, nanoseconds.
pub const MISSILE_TTL: u64 = 2_500_000_000;

/// Launch speed of a missile along the firing heading, raw velocity.
pub const MISSILE_START_SPEED: i64 = 983040;

/// Launch offset of a missile along the firing heading, raw length.
pub const MISSILE_START_OFFSET: i64 = 131072;

/// Crew damage one missile hit inflicts.
pub const MISSILE_DAMAGE: u8 = 4;

/// Battery charge one launch costs.
pub const MISSILE_CHARGE_COST: u8 = 9;

/// Steering for a plain hull: full right beats full left, both from the
/// already-normalized input.
pub open spec fn helm_steer(i: Input) -> int {
    if i.is_right() {
        CONTROL_ONE as int
    } else if i.is_left() {
        -CONTROL_ONE as int
    } else {
        0
    }
}

/// Throttle for a plain hull.
pub open spec fn helm_throttle(i: Input) -> int {
    if i.is_thrust() {
        CONTROL_ONE as int
    } else {
        0
    }
}

/// The squared distance from `(sx, sy)` to a neighbour.
pub open spec fn view_dist2(sx: int, sy: int, v: ActorView) -> int {
    (sx - v.x) * (sx - v.x) + (sy - v.y) * (sy - v.y)
}

/// Whether a neighbour is a valid homing target for an actor with the
/// given affiliation: it is affiliated, and differently.
pub open spec fn is_target(v: ActorView, aff: Option<u8>) -> bool {
    v.affiliation is Some && aff != v.affiliation
}

/// The homing target among the first `n` neighbours: the first neighbour
/// at the minimum squared distance, as index and squared distance; a
/// strictly closer later neighbour replaces an earlier choice.
pub open spec fn best_target(s: Seq<ActorView>, sx: int, sy: int, aff: Option<u8>, n: int) -> Option<
    (int, int),
>
    decreases n,
{
    if n <= 0 {
        None
    } else {
        let prev = best_target(s, sx, sy, aff, n - 1);
        if is_target(s[n - 1], aff) {
            let d = view_dist2(sx, sy, s[n - 1]);
            match prev {
                Option::None => Some((n - 1, d)),
                Option::Some(p) => if d < p.1 {
                    Some((n - 1, d))
                } else {
                    prev
                },
            }
        } else {
            prev
        }
    }
}

/// The missile's proportional steering toward a target: the lateral
/// offset of the target from the heading axis, saturating to full
/// steering beyond one twentieth of the distance, and zero without a
/// target or at zero distance.
pub open spec fn missile_steer(
    sx: int,
    sy: int,
    ux: int,
    uy: int,
    s: Seq<ActorView>,
    aff: Option<u8>,
) -> int {
    match best_target(s, sx, sy, aff, s.len() as int) {
        Option::None => 0,
        Option::Some(t) => {
            let v = s[t.0];
            let ddx = sx - v.x;
            let ddy = sy - v.y;
            let off = uy * ddx - ux * ddy;
            let d2 = t.1;
            if d2 == 0 {
                0
            } else if off * off > tdiv((UNIT_SCALE as int) * (UNIT_SCALE as int) * d2, 400) {
                if off < 0 {
                    -CONTROL_ONE as int
                } else {
                    CONTROL_ONE as int
                }
            } else {
                let m = clamp_mag(
                    tdiv(20480 * mag(off), UNIT_SCALE * sqrt_floor(d2)),
                    CONTROL_ONE as int,
                );
                if off < 0 {
                    -m
                } else {
                    m
                }
            }
        },
    }
}

/// The targeting scan's result is an in-range index paired with that
/// neighbour's squared distance.
pub proof fn lemma_best_target_index(s: Seq<ActorView>, sx: int, sy: int, aff: Option<u8>, n: int)
    requires
        n <= s.len(),
    ensures
        best_target(s, sx, sy, aff, n) is Some ==> {
            let t = best_target(s, sx, sy, aff, n).unwrap();
            &&& 0 <= t.0 < n
            &&& t.1 == view_dist2(sx, sy, s[t.0])
            &&& t.1 >= 0
        },
    decreases n,
{
    if n > 0 {
        lemma_best_target_index(s, sx, sy, aff, n - 1);
        if best_target(s, sx, sy, aff, n) is Some {
            let t = best_target(s, sx, sy, aff, n).unwrap();
            lemma_mag_sq(sx - s[t.0].x);
            lemma_mag_sq(sy - s[t.0].y);
        }
    }
}

/// Lock-on straight ahead: whenever the chosen target sits exactly on the
/// heading axis (zero lateral offset), the missile steers dead straight.
pub proof fn lemma_missile_lock_straight(
    sx: int,
    sy: int,
    ux: int,
    uy: int,
    s: Seq<ActorView>,
    aff: Option<u8>,
)
    requires
        best_target(s, sx, sy, aff, s.len() as int) is Some,
        ({
            let t = best_target(s, sx, sy, aff, s.len() as int).unwrap();
            uy * (sx - s[t.0].x) - ux * (sy - s[t.0].y) == 0
        }),
    ensures
        missile_steer(sx, sy, ux, uy, s, aff) == 0,
{
    lemma_best_target_index(s, sx, sy, aff, s.len() as int);
    let t = best_target(s, sx, sy, aff, s.len() as int).unwrap();
    let v = s[t.0];
    let off = uy * (sx - v.x) - ux * (sy - v.y);
    if t.1 != 0 {
        assert(off * off == 0) by (nonlinear_arith)
            requires
                off == 0,
        ;
        assert((UNIT_SCALE as int) * (UNIT_SCALE as int) * t.1 >= 0) by (nonlinear_arith)
            requires
                t.1 >= 0,
        ;
        crate::units::lemma_tdiv_bounds((UNIT_SCALE as int) * (UNIT_SCALE as int) * t.1, 400);
        vstd::arithmetic::div_mod::lemma_div_pos_is_pos(
            (UNIT_SCALE as int) * (UNIT_SCALE as int) * t.1,
            400,
        );
        lemma_sqrt_floor_props(t.1);
        if sqrt_floor(t.1) == 0 {
            assert(false) by (nonlinear_arith)
                requires
                    t.1 >= 1,
                    sqrt_floor(t.1) == 0,
                    t.1 < (sqrt_floor(t.1) + 1) * (sqrt_floor(t.1) + 1),
            ;
        }
        assert(mag(off) == 0);
        assert(20480 * mag(off) == 0) by (nonlinear_arith)
            requires
                mag(off) == 0,
        ;
        vstd::arithmetic::div_mod::lemma_div_of0(UNIT_SCALE * sqrt_floor(t.1));
        assert(tdiv(20480 * mag(off), UNIT_SCALE * sqrt_floor(t.1)) == 0);
        assert(clamp_mag(0, CONTROL_ONE as int) == 0);
    }
}

/// The immovable hazard: no steering, no thrust, no spawns; contact hurts
/// the other body in proportion to its remaining crew and still bounces.
#[derive(Clone, Copy)]
pub struct Planet;

impl Planet {
    /// A planet never moves itself.
    pub fn update(&self) -> (r: Request)
        ensures
            r.steer == 0,
            r.throttle == 0,
            r.summon@.len() == 0,
    {
        Request { steer: 0, throttle: 0, summon: Vec::new() }
    }

    /// Contact damage: a quarter of the victim's crew, at least one, and
    /// the bounce goes ahead.
    pub fn collide(&self, other: &mut ActorNative) -> (r: CollisionType)
        ensures
            r == CollisionType::Kinetic,
            *final(other) == (ActorNative {
                crew: if old(other).specs.takesdamage {
                    sat_sub_u8(old(other).crew, planet_damage(old(other).crew))
                } else {
                    old(other).crew
                },
                dead: old(other).dead || (old(other).specs.takesdamage && sat_sub_u8(
                    old(other).crew,
                    planet_damage(old(other).crew),
                ) == 0),
                ..*old(other)
            }),
            old(other).wf() ==> final(other).wf(),
    {
        let mut damage: u8 = other.crew / 4;
        if damage == 0 {
            damage = 1;
        }
        other.damage(damage);
        CollisionType::Kinetic
    }
}

/// The crew damage a planet contact inflicts on a body with `crew` left.
pub open spec fn planet_damage(crew: u8) -> u8 {
    if crew / 4 == 0 {
        1u8
    } else {
        (crew / 4) as u8
    }
}

/// The steerable hull that fires homing missiles.
#[derive(Clone, Copy)]
pub struct Cruiser {
    pub firerate: FireRate,
}

/// Whether a fire request goes through: the fire control is held, the
/// battery can pay, and the cooldown has lapsed.
pub open spec fn cruiser_fires(c: Cruiser, n: ActorNative, i: Input, now: u64) -> bool {
    i.is_fire() && n.battery >= MISSILE_CHARGE_COST && now > c.firerate.next_allowed()
}

impl Cruiser {
    /// Map input to helm orders; on an accepted fire request, pay the
    /// battery cost and spawn one missile ahead of the hull, inheriting
    /// the hull's velocity plus the launch speed along the firing
    /// heading `(ux, uy)`.
    pub fn update(
        &mut self,
        native: &mut ActorNative,
        input: Input,
        now: u64,
        ux: i64,
        uy: i64,
    ) -> (r: Request)
        requires
            old(native).wf(),
            mag(ux as int) <= UNIT_SCALE,
            mag(uy as int) <= UNIT_SCALE,
            now <= 0xffff_fff0_0000_0000,
            old(self).firerate.interval() == CRUISER_FIRE_COOLDOWN,
        ensures
            final(native).wf(),
            r.steer == helm_steer(input),
            r.throttle == helm_throttle(input),
            ({
                let fires = cruiser_fires(*old(self), *old(native), input, now);
                &&& (!fires ==> *final(self) == *old(self))
                &&& final(self).firerate.interval() == CRUISER_FIRE_COOLDOWN
                &&& final(self).firerate.next_allowed() == if fires {
                    now + CRUISER_FIRE_COOLDOWN
                } else {
                    old(self).firerate.next_allowed() as int
                }
                &&& *final(native) == (ActorNative {
                    battery: if fires {
                        (old(native).battery - MISSILE_CHARGE_COST) as u8
                    } else {
                        old(native).battery
                    },
                    ..*old(native)
                })
                &&& r.summon@.len() == (if fires {
                    1int
                } else {
                    0int
                })
                &&& fires ==> {
                    let m = r.summon@[0];
                    &&& m.native.specs == crate::archetype::cruiser_missile_def()
                    &&& m.native.x == clamp_mag(
                        old(native).x + tdiv(
                            (MISSILE_START_OFFSET as int) * ux,
                            UNIT_SCALE as int,
                        ),
                        POS_LIMIT as int,
                    )
                    &&& m.native.y == clamp_mag(
                        old(native).y + tdiv(
                            (MISSILE_START_OFFSET as int) * uy,
                            UNIT_SCALE as int,
                        ),
                        POS_LIMIT as int,
                    )
                    &&& m.native.heading == old(native).heading
                    &&& m.native.dx == clamp_mag(
                        old(native).dx + tdiv((MISSILE_START_SPEED as int) * ux, UNIT_SCALE as int),
                        crate::units::VEL_LIMIT as int,
                    )
                    &&& m.native.dy == clamp_mag(
                        old(native).dy + tdiv((MISSILE_START_SPEED as int) * uy, UNIT_SCALE as int),
                        crate::units::VEL_LIMIT as int,
                    )
                    &&& m.native.affiliation == old(native).affiliation
                    &&& !m.native.dead
                    &&& m.native.crew == crate::archetype::cruiser_missile_def().maxcrew
                    &&& m.generator is NoControl
                    &&& m.translator is CruiserMissile
                    &&& m.translator matches crate::actor::ActorTranslatorEnum::CruiserMissile(mt)
                        && mt.ttl.end() == now + MISSILE_TTL
                    &&& m.native.wf()
                }
            }),
    {
        let steer: i64 = if input.is(Input::right()) {
            CONTROL_ONE
        } else if input.is(Input::left()) {
            -CONTROL_ONE
        } else {
            0
        };
        let throttle: i64 = if input.is(Input::thrust()) {
            CONTROL_ONE
        } else {
            0
        };
        let mut summon: Vec<Actor> = Vec::new();
        if input.is(Input::fire()) && native.battery >= MISSILE_CHARGE_COST && self.firerate.try_fire(
            now,
        ) {
            native.battery = native.battery - MISSILE_CHARGE_COST;
            proof {
                lemma_mul_bound(MISSILE_START_OFFSET as int, ux as int, 0x2_0000, 0x10_0000);
                lemma_mul_bound(MISSILE_START_SPEED as int, ux as int, 0xF_0000, 0x10_0000);
                lemma_mul_bound(MISSILE_START_OFFSET as int, uy as int, 0x2_0000, 0x10_0000);
                lemma_mul_bound(MISSILE_START_SPEED as int, uy as int, 0xF_0000, 0x10_0000);
                crate::units::lemma_tdiv_mag_le(
                    (MISSILE_START_OFFSET as int) * (ux as int),
                    UNIT_SCALE as int,
                    0x2_0000,
                );
                crate::units::lemma_tdiv_mag_le(
                    (MISSILE_START_OFFSET as int) * (uy as int),
                    UNIT_SCALE as int,
                    0x2_0000,
                );
                crate::units::lemma_tdiv_mag_le(
                    (MISSILE_START_SPEED as int) * (ux as int),
                    UNIT_SCALE as int,
                    0xF_0000,
                );
                crate::units::lemma_tdiv_mag_le(
                    (MISSILE_START_SPEED as int) * (uy as int),
                    UNIT_SCALE as int,
                    0xF_0000,
                );
            }
            let offx: i64 = div_t((MISSILE_START_OFFSET as i128) * (ux as i128), UNIT_SCALE as i128)
                as i64;
            let offy: i64 = div_t((MISSILE_START_OFFSET as i128) * (uy as i128), UNIT_SCALE as i128)
                as i64;
            // the launch speed rides on top of the hull's current velocity
            let dx: i64 = clamp_to(
                native.dx as i128 + div_t(
                    (MISSILE_START_SPEED as i128) * (ux as i128),
                    UNIT_SCALE as i128,
                ),
                crate::units::VEL_LIMIT,
            );
            let dy: i64 = clamp_to(
                native.dy as i128 + div_t(
                    (MISSILE_START_SPEED as i128) * (uy as i128),
                    UNIT_SCALE as i128,
                ),
                crate::units::VEL_LIMIT,
            );
            let px: i64 = clamp_to(native.x as i128 + offx as i128, POS_LIMIT);
            let py: i64 = clamp_to(native.y as i128 + offy as i128, POS_LIMIT);
            let mnative = ActorNative::new(
                ((px, py), native.heading),
                crate::archetype::cruiser_missile(),
                native.affiliation,
                now,
            );
            summon.push(
                Actor::new(
                    mnative,
                    ActorGeneratorEnum::NoControl(NoControl),
                    crate::actor::ActorTranslatorEnum::CruiserMissile(
                        CruiserMissile { ttl: Timer::new(now, MISSILE_TTL) },
                    ),
                ).with_velocity((dx, dy)),
            );
        }
        Request { steer, throttle, summon }
    }

    /// A hull bounces and inflicts no contact damage of its own.
    pub fn collide(&self, _other: &mut ActorNative) -> (r: CollisionType)
        ensures
            r == CollisionType::Kinetic,
            *final(_other) == *old(_other),
    {
        CollisionType::Kinetic
    }
}

/// The homing missile: full throttle, proportional steering toward the
/// nearest hostile, and a lifetime after which it dies quietly.
#[derive(Clone, Copy)]
pub struct CruiserMissile {
    pub ttl: Timer,
}

impl CruiserMissile {
    /// Steer toward the nearest differently-affiliated neighbour; on
    /// expiry of the lifetime, die with neutral controls.
    pub fn update(
        &self,
        native: &mut ActorNative,
        now: u64,
        ux: i64,
        uy: i64,
        others: &Vec<ActorView>,
    ) -> (r: Request)
        requires
            old(native).wf(),
            mag(ux as int) <= UNIT_SCALE,
            mag(uy as int) <= UNIT_SCALE,
            forall|i: int|
                0 <= i < others@.len() ==> mag(#[trigger] others@[i].x as int) <= POS_LIMIT && mag(
                    others@[i].y as int,
                ) <= POS_LIMIT,
        ensures
            final(native).wf(),
            r.summon@.len() == 0,
            mag(r.steer as int) <= CONTROL_ONE,
            now > self.ttl.end() ==> {
                &&& r.steer == 0
                &&& r.throttle == 0
                &&& *final(native) == (ActorNative { dead: true, ..*old(native) })
            },
            !(now > self.ttl.end()) ==> {
                &&& *final(native) == *old(native)
                &&& r.throttle == CONTROL_ONE
                &&& r.steer == missile_steer(
                    old(native).x as int,
                    old(native).y as int,
                    ux as int,
                    uy as int,
                    others@,
                    old(native).affiliation,
                )
            },
    {
        if self.ttl.done(now) {
            native.dead = true;
            return Request { steer: 0, throttle: 0, summon: Vec::new() };
        }
        let mut best: Option<(usize, i128)> = None;
        let ghost s = others@;
        let n = others.len();
        let mut i: usize = 0;
        while i < n
            invariant
                n == s.len(),
                i <= n,
                native.wf(),
                forall|j: int|
                    0 <= j < s.len() ==> mag(#[trigger] s[j].x as int) <= POS_LIMIT && mag(
                        s[j].y as int,
                    ) <= POS_LIMIT,
                others@ == s,
                ({
                    let b = best_target(
                        s,
                        native.x as int,
                        native.y as int,
                        native.affiliation,
                        i as int,
                    );
                    match best {
                        Option::None => b is None,
                        Option::Some(p) => b == Some((p.0 as int, p.1 as int)) && p.0 < i,
                    }
                }),
            decreases n - i,
        {
            let v = others[i];
            let take: bool = match v.affiliation {
                Option::Some(t) => match native.affiliation {
                    Option::Some(mine) => mine != t,
                    Option::None => true,
                },
                Option::None => false,
            };
            if take {
                let ddx: i128 = native.x as i128 - v.x as i128;
                let ddy: i128 = native.y as i128 - v.y as i128;
                proof {
                    lemma_mul_bound(ddx as int, ddx as int, 0x200_0000_0000, 0x200_0000_0000);
                    lemma_mul_bound(ddy as int, ddy as int, 0x200_0000_0000, 0x200_0000_0000);
                }
                let d: i128 = ddx * ddx + ddy * ddy;
                match best {
                    Option::None => {
                        best = Some((i, d));
                    },
                    Option::Some(p) => {
                        if d < p.1 {
                            best = Some((i, d));
                        }
                    },
                }
            }
            i = i + 1;
        }
        let mut steering: i64 = 0;
        if let Some((ti, d2)) = best {
            let v = others[ti];
            let ddx: i128 = native.x as i128 - v.x as i128;
            let ddy: i128 = native.y as i128 - v.y as i128;
            proof {
                lemma_mul_bound(uy as int, ddx as int, 0x10_0000, 0x200_0000_0000);
                lemma_mul_bound(ux as int, ddy as int, 0x10_0000, 0x200_0000_0000);
                lemma_best_target_dist(
                    s,
                    native.x as int,
                    native.y as int,
                    native.affiliation,
                    n as int,
                );
            }
            let off: i128 = (uy as i128) * ddx - (ux as i128) * ddy;
            if d2 != 0 {
                proof {
                    lemma_mul_bound(
                        off as int,
                        off as int,
                        0x4000_0000_0000_0000,
                        0x4000_0000_0000_0000,
                    );
                    let us: int = UNIT_SCALE as int;
                    assert(1_099_511_627_776int == us * us) by (nonlinear_arith)
                        requires
                            us == 1048576,
                    ;

                }
                let u2: i128 = 1_099_511_627_776;
                let threshold: i128 = div_t(u2 * d2, 400);
                if off * off > threshold {
                    steering = if off < 0 {
                        -CONTROL_ONE
                    } else {
                        CONTROL_ONE
                    };
                } else {
                    let dist: i128 = isqrt(d2 as u128) as i128;
                    proof {
                        lemma_sqrt_floor_props(d2 as int);
                        if dist == 0 {
                            assert(false) by (nonlinear_arith)
                                requires
                                    d2 >= 1,
                                    dist == 0,
                                    d2 < (dist + 1) * (dist + 1),
                            ;
                        }
                        lemma_mul_bound(20480, mag(off as int), 20480, 0x4000_0000_0000_0000);
                        lemma_tdiv_bounds(
                            20480 * mag(off as int),
                            (UNIT_SCALE as int) * (dist as int),
                        );
                        assert(20480 * mag(off as int) >= 0) by (nonlinear_arith)
                            requires
                                mag(off as int) >= 0,
                        ;
                        assert(20480 * (off as int) == 20480 * mag(off as int) || 20480 * (off
                            as int) == -(20480 * mag(off as int))) by (nonlinear_arith);
                        vstd::arithmetic::div_mod::lemma_div_pos_is_pos(
                            20480 * mag(off as int),
                            (UNIT_SCALE as int) * (dist as int),
                        );
                    }
                    let offmag: i128 = if off >= 0 {
                        off
                    } else {
                        -off
                    };
                    let m: i128 = div_t(20480 * offmag, (UNIT_SCALE as i128) * dist);
                    let mc: i64 = clamp_to(m, CONTROL_ONE);
                    steering = if off < 0 {
                        -mc
                    } else {
                        mc
                    };
                }
            }
        }
        Request { steer: steering, throttle: CONTROL_ONE, summon: Vec::new() }
    }

    /// A missile spends itself on contact: it hurts the other body and
    /// dies without bouncing.
    pub fn collide(&self, native: &mut ActorNative, other: &mut ActorNative) -> (r: CollisionType)
        ensures
            r == CollisionType::Silent,
            *final(native) == (ActorNative { dead: true, ..*old(native) }),
            *final(other) == (ActorNative {
                crew: if old(other).specs.takesdamage {
                    sat_sub_u8(old(other).crew, MISSILE_DAMAGE)
                } else {
                    old(other).crew
                },
                dead: old(other).dead || (old(other).specs.takesdamage && sat_sub_u8(
                    old(other).crew,
                    MISSILE_DAMAGE,
                ) == 0),
                ..*old(other)
            }),
            old(other).wf() ==> final(other).wf(),
            old(native).wf() ==> final(native).wf(),
    {
        other.damage(MISSILE_DAMAGE);
        native.dead = true;
        CollisionType::Silent
    }
}

/// Every squared distance the targeting scan can choose is nonnegative
/// and within the playfield's working range.
pub proof fn lemma_best_target_dist(s: Seq<ActorView>, sx: int, sy: int, aff: Option<u8>, n: int)
    requires
        n <= s.len(),
        mag(sx) <= POS_LIMIT,
        mag(sy) <= POS_LIMIT,
        forall|j: int|
            0 <= j < s.len() ==> mag(#[trigger] s[j].x as int) <= POS_LIMIT && mag(s[j].y as int)
                <= POS_LIMIT,
    ensures
        best_target(s, sx, sy, aff, n) is Some ==> {
            let t = best_target(s, sx, sy, aff, n).unwrap();
            &&& 0 <= t.0 < n
            &&& 0 <= t.1 <= 0x10_0000_0000_0000_0000_0000
            &&& t.1 == view_dist2(sx, sy, s[t.0])
        },
    decreases n,
{
    if n > 0 {
        lemma_best_target_dist(s, sx, sy, aff, n - 1);
        let v = s[n - 1];
        lemma_mag_sq(sx - v.x);
        lemma_mag_sq(sy - v.y);
        lemma_mul_bound(sx - v.x, sx - v.x, 0x200_0000_0000, 0x200_0000_0000);
        lemma_mul_bound(sy - v.y, sy - v.y, 0x200_0000_0000, 0x200_0000_0000);
    }
}

/// The plain round hull: helm orders only.
#[derive(Clone, Copy)]
pub struct Avenger;

impl Avenger {
    /// Map input straight to helm orders.
    pub fn update(&self, input: Input) -> (r: Request)
        ensures
            r.steer == helm_steer(input),
            r.throttle == helm_throttle(input),
            r.summon@.len() == 0,
    {
        let steer: i64 = if input.is(Input::right()) {
            CONTROL_ONE
        } else if input.is(Input::left()) {
            -CONTROL_ONE
        } else {
            0
        };
        let throttle: i64 = if input.is(Input::thrust()) {
            CONTROL_ONE
        } else {
            0
        };
        Request { steer, throttle, summon: Vec::new() }
    }

    /// A hull bounces and inflicts no contact damage of its own.
    pub fn collide(&self, _other: &mut ActorNative) -> (r: CollisionType)
        ensures
            r == CollisionType::Kinetic,
            *final(_other) == *old(_other),
    {
        CollisionType::Kinetic
    }
}

impl Cruiser {
    /// Compose a cruiser actor: the given input source, the cruiser
    /// policy with its fire control started at `now`.
    pub fn gen(
        position: ((i64, i64), i64),
        affiliation: u8,
        generator: ActorGeneratorEnum,
        now: u64,
    ) -> (r: Actor)
        requires
            mag(position.0.0 as int) <= POS_LIMIT,
            mag(position.0.1 as int) <= POS_LIMIT,
            0 <= position.1 < crate::units::TAU_RAW,
            affiliation != 0,
        ensures
            r.wf(),
            r.native.x == position.0.0,
            r.native.y == position.0.1,
            r.native.heading == position.1,
            r.native.specs == crate::archetype::cruiser_def(),
            r.native.affiliation == Some(affiliation),
            r.native.crew == crate::archetype::cruiser_def().maxcrew,
            r.native.battery == crate::archetype::cruiser_def().maxbattery,
            !r.native.dead,
            r.generator == generator,
            r.translator matches crate::actor::ActorTranslatorEnum::Cruiser(c)
                && c.firerate.next_allowed() == now && c.firerate.interval()
                == CRUISER_FIRE_COOLDOWN,
    {
        Actor::new(
            ActorNative::new(position, crate::archetype::cruiser(), Some(affiliation), now),
            generator,
            crate::actor::ActorTranslatorEnum::Cruiser(
                Cruiser { firerate: FireRate::new(now, CRUISER_FIRE_COOLDOWN) },
            ),
        )
    }
}

impl Avenger {
    /// Compose an avenger actor: the given input source, the plain-hull
    /// policy.
    pub fn gen(
        position: ((i64, i64), i64),
        affiliation: u8,
        generator: ActorGeneratorEnum,
        now: u64,
    ) -> (r: Actor)
        requires
            mag(position.0.0 as int) <= POS_LIMIT,
            mag(position.0.1 as int) <= POS_LIMIT,
            0 <= position.1 < crate::units::TAU_RAW,
            affiliation != 0,
        ensures
            r.wf(),
            r.native.x == position.0.0,
            r.native.y == position.0.1,
            r.native.heading == position.1,
            r.native.specs == crate::archetype::avenger_def(),
            r.native.affiliation == Some(affiliation),
            r.native.crew == crate::archetype::avenger_def().maxcrew,
            !r.native.dead,
            r.generator == generator,
            r.translator is Avenger,
    {
        Actor::new(
            ActorNative::new(position, crate::archetype::avenger(), Some(affiliation), now),
            generator,
            crate::actor::ActorTranslatorEnum::Avenger(Avenger),
        )
    }
}

} // verus!
