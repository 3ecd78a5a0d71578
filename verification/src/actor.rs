//! One actor: a physical body, an input source, and a behaviour policy,
//! plus the per-frame pipeline and the pair interaction that the frame
//! loop drives.

use vstd::prelude::*;
use crate::archetype::Hitbox;
use crate::behavior::{
    ActorGeneratorEnum,
    ActorView,
    Avenger,
    CollisionType,
    Cruiser,
    CruiserMissile,
    MISSILE_DAMAGE,
    Planet,
    Request,
    missile_steer,
    planet_damage,
};
use crate::body::{
    ActorNative,
    CONTROL_ONE,
    approach,
    sat_add_u8,
    sat_sub_u8,
    turn_target,
    wrap_angle_spec,
};
use crate::collision::{contact_spec, contacting, refl_omega, refl_vel_x, refl_vel_y, reflect};
use crate::gravity::gravitate;
use crate::input::KeyState;
use crate::units::{
    ANG_VEL_LIMIT,
    DT_LIMIT,
    NANOS,
    POS_LIMIT,
    TAU_RAW,
    UNIT_SCALE,
    VEL_LIMIT,
    clamp_mag,
    clamp_to,
    div_t,
    lemma_mul_bound,
    lemma_tdiv_bounds,
    mag,
    tdiv,
};

verus! {

/// The closed set of behaviour policies.
#[derive(Clone, Copy)]
pub enum ActorTranslatorEnum {
    Planet(Planet),
    Avenger(Avenger),
    Cruiser(Cruiser),
    CruiserMissile(CruiserMissile),
}

impl ActorTranslatorEnum {
    /// Policy-specific state invariant.
    pub open spec fn wf(self) -> bool {
        match self {
            ActorTranslatorEnum::Cruiser(c) => c.firerate.interval()
                == crate::behavior::CRUISER_FIRE_COOLDOWN,
            _ => true,
        }
    }
}

/// The left-turn flag after input normalisation.
pub open spec fn key_left(g: ActorGeneratorEnum, k: KeyState) -> bool {
    g is UserControl && k.left && !k.right
}

/// The right-turn flag after input normalisation.
pub open spec fn key_right(g: ActorGeneratorEnum, k: KeyState) -> bool {
    g is UserControl && k.right && !k.left
}

/// The thrust flag.
pub open spec fn key_thrust(g: ActorGeneratorEnum, k: KeyState) -> bool {
    g is UserControl && k.thrust
}

/// The fire flag.
pub open spec fn key_fire(g: ActorGeneratorEnum, k: KeyState) -> bool {
    g is UserControl && k.fire
}

/// The steering the actor's policy requests this frame.
pub open spec fn frame_steer(
    t: ActorTranslatorEnum,
    n: ActorNative,
    g: ActorGeneratorEnum,
    k: KeyState,
    now: u64,
    ux: int,
    uy: int,
    others: Seq<ActorView>,
) -> int {
    match t {
        ActorTranslatorEnum::Planet(_) => 0,
        ActorTranslatorEnum::Avenger(_) => if key_right(g, k) {
            CONTROL_ONE as int
        } else if key_left(g, k) {
            -CONTROL_ONE as int
        } else {
            0
        },
        ActorTranslatorEnum::Cruiser(_) => if key_right(g, k) {
            CONTROL_ONE as int
        } else if key_left(g, k) {
            -CONTROL_ONE as int
        } else {
            0
        },
        ActorTranslatorEnum::CruiserMissile(m) => if now > m.ttl.end() {
            0
        } else {
            missile_steer(n.x as int, n.y as int, ux, uy, others, n.affiliation)
        },
    }
}

/// The throttle the actor's policy requests this frame.
pub open spec fn frame_throttle(
    t: ActorTranslatorEnum,
    g: ActorGeneratorEnum,
    k: KeyState,
    now: u64,
) -> int {
    match t {
        ActorTranslatorEnum::Planet(_) => 0,
        ActorTranslatorEnum::Avenger(_) => if key_thrust(g, k) {
            CONTROL_ONE as int
        } else {
            0
        },
        ActorTranslatorEnum::Cruiser(_) => if key_thrust(g, k) {
            CONTROL_ONE as int
        } else {
            0
        },
        ActorTranslatorEnum::CruiserMissile(m) => if now > m.ttl.end() {
            0
        } else {
            CONTROL_ONE as int
        },
    }
}

/// Whether the policy fires a missile this frame.
pub open spec fn frame_fires(
    t: ActorTranslatorEnum,
    n: ActorNative,
    g: ActorGeneratorEnum,
    k: KeyState,
    now: u64,
) -> bool {
    match t {
        ActorTranslatorEnum::Cruiser(c) => key_fire(g, k) && n.battery
            >= crate::behavior::MISSILE_CHARGE_COST && now > c.firerate.next_allowed(),
        _ => false,
    }
}

/// Whether the policy expires (dies quietly) this frame.
pub open spec fn t_expires(t: ActorTranslatorEnum, now: u64) -> bool {
    match t {
        ActorTranslatorEnum::CruiserMissile(m) => now > m.ttl.end(),
        _ => false,
    }
}

/// Whether the policy allows a physical bounce on contact.
pub open spec fn t_kinetic(t: ActorTranslatorEnum) -> bool {
    !(t is CruiserMissile)
}

/// The crew damage the policy inflicts on a contacted victim.
pub open spec fn contact_damage(t: ActorTranslatorEnum, victim: ActorNative) -> u8 {
    match t {
        ActorTranslatorEnum::Planet(_) => planet_damage(victim.crew),
        ActorTranslatorEnum::CruiserMissile(_) => MISSILE_DAMAGE,
        _ => 0,
    }
}

/// The victim's state after the policy's contact side effect.
pub open spec fn victim_after(t: ActorTranslatorEnum, victim: ActorNative) -> ActorNative {
    match t {
        ActorTranslatorEnum::Planet(_) => damaged(victim, planet_damage(victim.crew)),
        ActorTranslatorEnum::CruiserMissile(_) => damaged(victim, MISSILE_DAMAGE),
        _ => victim,
    }
}

/// The attacker's own state after its contact side effect: a missile
/// spends itself.
pub open spec fn attacker_after(t: ActorTranslatorEnum, attacker: ActorNative) -> ActorNative {
    if t is CruiserMissile {
        ActorNative { dead: true, ..attacker }
    } else {
        attacker
    }
}

/// The effect of `ActorNative::damage`, as a function.
pub open spec fn damaged(n: ActorNative, dmg: u8) -> ActorNative {
    if n.specs.takesdamage {
        ActorNative {
            crew: sat_sub_u8(n.crew, dmg),
            dead: n.dead || sat_sub_u8(n.crew, dmg) == 0,
            ..n
        }
    } else {
        n
    }
}

/// A body rewound by one frame of its own motion, the resolver's simple
/// continuous-collision correction.
pub open spec fn rewound(n: ActorNative, dt: u64) -> ActorNative {
    ActorNative {
        x: clamp_mag(n.x - tdiv(n.dx * dt, NANOS as int), POS_LIMIT as int) as i64,
        y: clamp_mag(n.y - tdiv(n.dy * dt, NANOS as int), POS_LIMIT as int) as i64,
        heading: wrap_angle_spec(n.heading - tdiv(n.angularvelocity * dt, NANOS as int)) as i64,
        ..n
    }
}

/// One actor of the simulation.
#[derive(Clone, Copy)]
pub struct Actor {
    pub native: ActorNative,
    pub generator: ActorGeneratorEnum,
    pub translator: ActorTranslatorEnum,
}

impl Actor {
    /// Combined invariant of body and policy state.
    pub open spec fn wf(self) -> bool {
        self.native.wf() && self.translator.wf()
    }

    /// Compose an actor from its parts.
    pub fn new(native: ActorNative, generator: ActorGeneratorEnum, translator: ActorTranslatorEnum)
        -> (r: Actor)
        ensures
            r.native == native,
            r.generator == generator,
            r.translator == translator,
    {
        Actor { native, generator, translator }
    }

    /// The current position.
    pub fn get_pos(&self) -> (r: (i64, i64))
        ensures
            r.0 == self.native.x,
            r.1 == self.native.y,
    {
        (self.native.x, self.native.y)
    }

    /// Mark whether the camera should track this actor.
    pub fn with_camera(self, camera: bool) -> (r: Actor)
        ensures
            r == (Actor {
                native: ActorNative { maintaincamera: camera, ..self.native },
                ..self
            }),
    {
        let mut this = self;
        this.native.maintaincamera = camera;
        this
    }

    /// Whether the camera tracks this actor.
    pub fn has_camera(&self) -> (r: bool)
        ensures
            r == self.native.maintaincamera,
    {
        self.native.maintaincamera
    }

    /// Whether this actor is to be removed from the live set.
    pub fn dead(&self) -> (r: bool)
        ensures
            r == self.native.dead,
    {
        self.native.dead
    }

    /// Replace the launch velocity.
    pub fn with_velocity(self, velocity: (i64, i64)) -> (r: Actor)
        ensures
            r == (Actor {
                native: ActorNative { dx: velocity.0, dy: velocity.1, ..self.native },
                ..self
            }),
    {
        let mut this = self;
        this.native.dx = velocity.0;
        this.native.dy = velocity.1;
        this
    }

    /// Apply contact damage to this actor's body.
    pub fn damage(&mut self, damage: u8)
        ensures
            final(self).native == damaged(old(self).native, damage),
            final(self).generator == old(self).generator,
            final(self).translator == old(self).translator,
            old(self).wf() ==> final(self).wf(),
    {
        self.native.damage(damage);
    }
}

/// What `Cruiser::update` promises of a spawned missile.
pub open spec fn spawned_missile_ok(m: Actor, parent: ActorNative, now: u64, ux: int, uy: int) -> bool {
    &&& m.native.specs == crate::archetype::cruiser_missile_def()
    &&& m.native.x == clamp_mag(
        parent.x + tdiv((crate::behavior::MISSILE_START_OFFSET as int) * ux, UNIT_SCALE as int),
        POS_LIMIT as int,
    )
    &&& m.native.y == clamp_mag(
        parent.y + tdiv((crate::behavior::MISSILE_START_OFFSET as int) * uy, UNIT_SCALE as int),
        POS_LIMIT as int,
    )
    &&& m.native.heading == parent.heading
    &&& m.native.dx == clamp_mag(
        parent.dx + tdiv((crate::behavior::MISSILE_START_SPEED as int) * ux, UNIT_SCALE as int),
        VEL_LIMIT as int,
    )
    &&& m.native.dy == clamp_mag(
        parent.dy + tdiv((crate::behavior::MISSILE_START_SPEED as int) * uy, UNIT_SCALE as int),
        VEL_LIMIT as int,
    )
    &&& m.native.affiliation == parent.affiliation
    &&& !m.native.dead
    &&& m.native.crew == crate::archetype::cruiser_missile_def().maxcrew
    &&& m.generator is NoControl
    &&& m.translator matches ActorTranslatorEnum::CruiserMissile(mt) && mt.ttl.end() == now
        + crate::behavior::MISSILE_TTL
    &&& m.wf()
}

impl Actor {
    /// The first half of one frame step: poll the input source, let the
    /// policy translate it, apply the battery recharge tick and the
    /// angular half of the integration.  Returns the midpoint heading of
    /// the step, the requested throttle, and the actors the policy
    /// spawned; the caller evaluates the midpoint heading's unit vector
    /// and finishes with `update_linear`.  `(ux, uy)` is the unit vector
    /// of the heading at the start of the frame.
    pub fn update(
        &mut self,
        keys: KeyState,
        now: u64,
        dt: u64,
        ux: i64,
        uy: i64,
        others: &Vec<ActorView>,
    ) -> (r: (i64, i64, Vec<Actor>))
        requires
            old(self).wf(),
            dt <= DT_LIMIT,
            now <= 0xffff_fff0_0000_0000,
            mag(ux as int) <= UNIT_SCALE,
            mag(uy as int) <= UNIT_SCALE,
            forall|i: int|
                0 <= i < others@.len() ==> mag(#[trigger] others@[i].x as int) <= POS_LIMIT && mag(
                    others@[i].y as int,
                ) <= POS_LIMIT,
        ensures
            final(self).wf(),
            final(self).generator == old(self).generator,
            ({
                let ot = old(self).translator;
                let on = old(self).native;
                let og = old(self).generator;
                let fires = frame_fires(ot, on, og, keys, now);
                let st = frame_steer(ot, on, og, keys, now, ux as int, uy as int, others@);
                let b1 = if fires {
                    (on.battery - crate::behavior::MISSILE_CHARGE_COST) as u8
                } else {
                    on.battery
                };
                let topup = b1 != on.specs.maxbattery && now > on.recharge.next_allowed();
                let b2 = if topup {
                    if sat_add_u8(b1, on.specs.chargevalue) > on.specs.maxbattery {
                        on.specs.maxbattery
                    } else {
                        sat_add_u8(b1, on.specs.chargevalue)
                    }
                } else {
                    b1
                };
                &&& r.1 == frame_throttle(ot, og, keys, now)
                &&& r.2@.len() == (if fires {
                    1int
                } else {
                    0int
                })
                &&& (fires ==> spawned_missile_ok(r.2@[0], on, now, ux as int, uy as int))
                &&& (!fires ==> final(self).translator == ot)
                &&& (fires ==> (final(self).translator matches ActorTranslatorEnum::Cruiser(c2)
                    && c2.firerate.interval() == crate::behavior::CRUISER_FIRE_COOLDOWN
                    && c2.firerate.next_allowed() == now + crate::behavior::CRUISER_FIRE_COOLDOWN))
                &&& final(self).native.battery == b2
                &&& final(self).native.recharge.interval() == on.recharge.interval()
                &&& final(self).native.recharge.next_allowed() == (if topup {
                    now + on.recharge.interval()
                } else {
                    on.recharge.next_allowed() as int
                })
                &&& final(self).native.dead == (on.dead || t_expires(ot, now))
                &&& final(self).native.angularvelocity == approach(
                    on.angularvelocity as int,
                    turn_target(on.specs, st),
                    tdiv(on.specs.turnacceleration * dt, NANOS as int),
                )
                &&& ({
                    let center = tdiv(
                        on.angularvelocity + final(self).native.angularvelocity as int,
                        2,
                    );
                    &&& final(self).native.heading == wrap_angle_spec(
                        on.heading + tdiv(center * dt, NANOS as int),
                    )
                    &&& r.0 == wrap_angle_spec(on.heading + tdiv(center * dt, 2 * NANOS as int))
                })
                &&& final(self).native.x == on.x
                &&& final(self).native.y == on.y
                &&& final(self).native.dx == on.dx
                &&& final(self).native.dy == on.dy
                &&& final(self).native.crew == on.crew
                &&& final(self).native.specs == on.specs
                &&& final(self).native.affiliation == on.affiliation
                &&& final(self).native.maintaincamera == on.maintaincamera
            }),
    {
        let input = self.generator.update(keys).normalize();
        let request: Request = match &mut self.translator {
            ActorTranslatorEnum::Planet(p) => p.update(),
            ActorTranslatorEnum::Avenger(a) => a.update(input),
            ActorTranslatorEnum::Cruiser(c) => c.update(&mut self.native, input, now, ux, uy),
            ActorTranslatorEnum::CruiserMissile(m) => m.update(
                &mut self.native,
                now,
                ux,
                uy,
                others,
            ),
        };
        self.native.recharge_battery(now);
        let mid = self.native.advance_turn(request.steer, dt);
        (mid, request.throttle, request.summon)
    }

    /// The second half of one frame step: thrust along the midpoint
    /// heading's unit vector, the speed ceiling, and the position update.
    pub fn update_linear(&mut self, throttle: i64, dt: u64, umx: i64, umy: i64)
        requires
            old(self).wf(),
            0 <= throttle <= CONTROL_ONE,
            dt <= DT_LIMIT,
            mag(umx as int) <= UNIT_SCALE,
            mag(umy as int) <= UNIT_SCALE,
        ensures
            final(self).wf(),
            final(self).generator == old(self).generator,
            final(self).translator == old(self).translator,
            ({
                let v = crate::body::linear_velocity_after(
                    old(self).native.specs,
                    old(self).native.dx as int,
                    old(self).native.dy as int,
                    throttle as int,
                    dt as int,
                    umx as int,
                    umy as int,
                );
                &&& final(self).native.dx == v.0
                &&& final(self).native.dy == v.1
            }),
            final(self).native.x == clamp_mag(
                old(self).native.x + tdiv(
                    (old(self).native.dx + final(self).native.dx) * dt,
                    2 * NANOS as int,
                ),
                POS_LIMIT as int,
            ),
            final(self).native.y == clamp_mag(
                old(self).native.y + tdiv(
                    (old(self).native.dy + final(self).native.dy) * dt,
                    2 * NANOS as int,
                ),
                POS_LIMIT as int,
            ),
            *final(self) == (Actor {
                native: ActorNative {
                    x: final(self).native.x,
                    y: final(self).native.y,
                    dx: final(self).native.dx,
                    dy: final(self).native.dy,
                    ..old(self).native
                },
                ..*old(self)
            }),
    {
        self.native.advance_linear(throttle, dt, umx, umy);
    }
}

/// The result of one mutual-gravity application, as a function; mirrors
/// `gravitate`.
pub open spec fn gravitated(a: ActorNative, b: ActorNative, dt: u64) -> (ActorNative, ActorNative) {
    let dx = a.x - b.x;
    let dy = a.y - b.y;
    let d2 = dx * dx + dy * dy;
    let r3 = d2 * crate::units::sqrt_floor(d2);
    let live = d2 > 0 && (crate::gravity::attracts(a, b) || crate::gravity::attracts(b, a));
    let adx = if live && crate::gravity::attracts(b, a) {
        clamp_mag(
            a.dx - crate::gravity::grav_dv(b.specs.mass as int, dt as int, dx, r3),
            VEL_LIMIT as int,
        )
    } else {
        a.dx as int
    };
    let ady = if live && crate::gravity::attracts(b, a) {
        clamp_mag(
            a.dy - crate::gravity::grav_dv(b.specs.mass as int, dt as int, dy, r3),
            VEL_LIMIT as int,
        )
    } else {
        a.dy as int
    };
    let bdx = if live && crate::gravity::attracts(a, b) {
        clamp_mag(
            b.dx + crate::gravity::grav_dv(a.specs.mass as int, dt as int, dx, r3),
            VEL_LIMIT as int,
        )
    } else {
        b.dx as int
    };
    let bdy = if live && crate::gravity::attracts(a, b) {
        clamp_mag(
            b.dy + crate::gravity::grav_dv(a.specs.mass as int, dt as int, dy, r3),
            VEL_LIMIT as int,
        )
    } else {
        b.dy as int
    };
    (
        ActorNative { dx: adx as i64, dy: ady as i64, ..a },
        ActorNative { dx: bdx as i64, dy: bdy as i64, ..b },
    )
}

/// The result of one impulse exchange, as a function; mirrors `reflect`.
pub open spec fn reflected(
    l: ActorNative,
    r: ActorNative,
    nx: int,
    ny: int,
    la: int,
    lb: int,
) -> (ActorNative, ActorNative) {
    let m1 = l.specs.mass as int;
    let m2 = r.specs.mass as int;
    let ldx = clamp_mag(
        refl_vel_x(m1, m2, l.dx as int, l.dy as int, r.dx as int, r.dy as int, nx, ny),
        VEL_LIMIT as int,
    );
    let ldy = clamp_mag(
        refl_vel_y(m1, m2, l.dx as int, l.dy as int, r.dx as int, r.dy as int, nx, ny),
        VEL_LIMIT as int,
    );
    let rdx = clamp_mag(
        refl_vel_x(m2, m1, r.dx as int, r.dy as int, l.dx as int, l.dy as int, nx, ny),
        VEL_LIMIT as int,
    );
    let rdy = clamp_mag(
        refl_vel_y(m2, m1, r.dx as int, r.dy as int, l.dx as int, l.dy as int, nx, ny),
        VEL_LIMIT as int,
    );
    let lav = clamp_mag(
        l.angularvelocity + refl_omega(l.dx - ldx, l.dy - ldy, la, l.specs.inertia as int),
        ANG_VEL_LIMIT as int,
    );
    let rav = clamp_mag(
        r.angularvelocity + refl_omega(r.dx - rdx, r.dy - rdy, lb, r.specs.inertia as int),
        ANG_VEL_LIMIT as int,
    );
    (
        ActorNative { dx: ldx as i64, dy: ldy as i64, angularvelocity: lav as i64, ..l },
        ActorNative { dx: rdx as i64, dy: rdy as i64, angularvelocity: rav as i64, ..r },
    )
}

/// The full outcome of one contact test and response between two actors,
/// in order: detection, both policies' contact side effects, and - when
/// both sides allow it and the normal is usable - the rewind and the
/// impulse exchange.
pub open spec fn collide_outcome(
    sn: ActorNative,
    st: ActorTranslatorEnum,
    on: ActorNative,
    ot: ActorTranslatorEnum,
    uax: int,
    uay: int,
    ubx: int,
    uby: int,
    dt: u64,
) -> (ActorNative, ActorNative) {
    if sn.specs.hitbox is Absent || on.specs.hitbox is Absent {
        (sn, on)
    } else {
        match contact_spec(sn, uax, uay, on, ubx, uby) {
            Option::None => (sn, on),
            Option::Some(c) => {
                let o1 = victim_after(st, on);
                let s1 = attacker_after(st, sn);
                let s2 = victim_after(ot, s1);
                let o2 = attacker_after(ot, o1);
                if t_kinetic(st) && t_kinetic(ot) {
                    let s3 = rewound(s2, dt);
                    let o3 = rewound(o2, dt);
                    if c.0 != 0 || c.1 != 0 {
                        reflected(s3, o3, c.0, c.1, c.2, c.3)
                    } else {
                        (s3, o3)
                    }
                } else {
                    (s2, o2)
                }
            },
        }
    }
}

/// Rewind a body by one frame of its own motion; see `rewound`.
fn rewind_body(n: &mut ActorNative, dt: u64)
    requires
        old(n).wf(),
        dt <= DT_LIMIT,
    ensures
        *final(n) == rewound(*old(n), dt),
        final(n).wf(),
{
    proof {
        lemma_mul_bound(n.dx as int, dt as int, 0x100_0000_0000, 0x1_0000_0000);
        lemma_mul_bound(n.dy as int, dt as int, 0x100_0000_0000, 0x1_0000_0000);
        lemma_mul_bound(n.angularvelocity as int, dt as int, 0x100_0000_0000, 0x1_0000_0000);
        lemma_tdiv_bounds(n.dx * dt, NANOS as int);
        lemma_tdiv_bounds(n.dy * dt, NANOS as int);
        lemma_tdiv_bounds(n.angularvelocity * dt, NANOS as int);
    }
    n.x = clamp_to(
        n.x as i128 - div_t((n.dx as i128) * (dt as i128), NANOS as i128),
        POS_LIMIT,
    );
    n.y = clamp_to(
        n.y as i128 - div_t((n.dy as i128) * (dt as i128), NANOS as i128),
        POS_LIMIT,
    );
    n.heading = crate::body::wrap_angle(
        n.heading as i128 - div_t((n.angularvelocity as i128) * (dt as i128), NANOS as i128),
    );
}

impl Actor {
    /// The policy's answer to a contact with `other`, with its side
    /// effects on both bodies.
    fn collide_dispatch(&mut self, other: &mut Actor) -> (r: CollisionType)
        ensures
            r == (if t_kinetic(old(self).translator) {
                CollisionType::Kinetic
            } else {
                CollisionType::Silent
            }),
            final(other).native == victim_after(old(self).translator, old(other).native),
            final(self).native == attacker_after(old(self).translator, old(self).native),
            final(self).generator == old(self).generator,
            final(self).translator == old(self).translator,
            final(other).generator == old(other).generator,
            final(other).translator == old(other).translator,
            old(self).wf() ==> final(self).wf(),
            old(other).wf() ==> final(other).wf(),
    {
        match &self.translator {
            ActorTranslatorEnum::Planet(p) => p.collide(&mut other.native),
            ActorTranslatorEnum::Avenger(a) => a.collide(&mut other.native),
            ActorTranslatorEnum::Cruiser(c) => c.collide(&mut other.native),
            ActorTranslatorEnum::CruiserMissile(m) => m.collide(
                &mut self.native,
                &mut other.native,
            ),
        }
    }

    /// Detect and resolve a contact between this actor and another: on
    /// overlap both policies react (damage, self-destruction, veto), and
    /// when both report `Kinetic` the pair is rewound by one frame of its
    /// own motion and bounced by `reflect`.  A zero contact normal
    /// (coincident centres) skips the bounce, guarding the reflection's
    /// singularity.
    pub fn collide(&mut self, other: &mut Actor, dt: u64, uax: i64, uay: i64, ubx: i64, uby: i64)
        requires
            old(self).wf(),
            old(other).wf(),
            dt <= DT_LIMIT,
            crate::collision::unit_ok(uax as int, uay as int),
            crate::collision::unit_ok(ubx as int, uby as int),
        ensures
            final(self).wf(),
            final(other).wf(),
            final(self).generator == old(self).generator,
            final(self).translator == old(self).translator,
            final(other).generator == old(other).generator,
            final(other).translator == old(other).translator,
            ({
                let out = collide_outcome(
                    old(self).native,
                    old(self).translator,
                    old(other).native,
                    old(other).translator,
                    uax as int,
                    uay as int,
                    ubx as int,
                    uby as int,
                    dt,
                );
                final(self).native == out.0 && final(other).native == out.1
            }),
    {
        if matches!(self.native.specs.hitbox, Hitbox::Absent) || matches!(
            other.native.specs.hitbox,
            Hitbox::Absent,
        ) {
            return ;
        }
        let found = contacting(&self.native, uax, uay, &other.native, ubx, uby);
        if let Some(contact) = found {
            let local = self.collide_dispatch(other);
            let remote = other.collide_dispatch(self);
            if matches!(local, CollisionType::Kinetic) && matches!(
                remote,
                CollisionType::Kinetic,
            ) {
                rewind_body(&mut self.native, dt);
                rewind_body(&mut other.native, dt);
                if contact.normalx != 0 || contact.normaly != 0 {
                    reflect(
                        &mut self.native,
                        &mut other.native,
                        contact.normalx,
                        contact.normaly,
                        contact.lever_local,
                        contact.lever_remote,
                    );
                }
            }
        }
    }

    /// One pairwise interaction of a frame: mutual gravity, then contact
    /// detection and response, both over the same time step.
    pub fn interact(&mut self, other: &mut Actor, dt: u64, uax: i64, uay: i64, ubx: i64, uby: i64)
        requires
            old(self).wf(),
            old(other).wf(),
            dt <= DT_LIMIT,
            crate::collision::unit_ok(uax as int, uay as int),
            crate::collision::unit_ok(ubx as int, uby as int),
        ensures
            final(self).wf(),
            final(other).wf(),
            final(self).generator == old(self).generator,
            final(self).translator == old(self).translator,
            final(other).generator == old(other).generator,
            final(other).translator == old(other).translator,
            ({
                let g = gravitated(old(self).native, old(other).native, dt);
                let out = collide_outcome(
                    g.0,
                    old(self).translator,
                    g.1,
                    old(other).translator,
                    uax as int,
                    uay as int,
                    ubx as int,
                    uby as int,
                    dt,
                );
                final(self).native == out.0 && final(other).native == out.1
            }),
    {
        gravitate(&mut self.native, &mut other.native, dt);
        self.collide(other, dt, uax, uay, ubx, uby);
    }
}

/// Compose the planet actor at a position: no input, the planet policy.
pub fn gen_planet(position: ((i64, i64), i64), now: u64) -> (r: Actor)
    requires
        mag(position.0.0 as int) <= POS_LIMIT,
        mag(position.0.1 as int) <= POS_LIMIT,
        0 <= position.1 < TAU_RAW,
    ensures
        r.wf(),
        r.native.x == position.0.0,
        r.native.y == position.0.1,
        r.native.heading == position.1,
        r.native.specs == crate::archetype::planet_def(),
        r.native.affiliation is None,
        !r.native.dead,
        r.generator is NoControl,
        r.translator is Planet,
{
    Actor::new(
        ActorNative::new(position, crate::archetype::planet(), None, now),
        ActorGeneratorEnum::NoControl(crate::behavior::NoControl),
        ActorTranslatorEnum::Planet(Planet),
    )
}

/// The neighbour snapshots a frame hands to every homing policy.
pub fn collect_views(actors: &Vec<Actor>) -> (r: Vec<ActorView>)
    ensures
        r@.len() == actors@.len(),
        forall|i: int|
            0 <= i < r@.len() ==> {
                &&& (#[trigger] r@[i]).x == actors@[i].native.x
                &&& r@[i].y == actors@[i].native.y
                &&& r@[i].affiliation == actors@[i].native.affiliation
            },
{
    let mut out: Vec<ActorView> = Vec::new();
    let mut i: usize = 0;
    while i < actors.len()
        invariant
            i <= actors@.len(),
            out@.len() == i,
            forall|j: int|
                0 <= j < i ==> {
                    &&& (#[trigger] out@[j]).x == actors@[j].native.x
                    &&& out@[j].y == actors@[j].native.y
                    &&& out@[j].affiliation == actors@[j].native.affiliation
                },
        decreases actors@.len() - i,
    {
        let a = &actors[i];
        out.push(
            ActorView { affiliation: a.native.affiliation, x: a.native.x, y: a.native.y },
        );
        i = i + 1;
    }
    out
}

/// The live actors of a sequence, in order.
pub open spec fn live_only(s: Seq<Actor>) -> Seq<Actor>
    decreases s.len(),
{
    if s.len() == 0 {
        Seq::empty()
    } else {
        let prefix = live_only(s.drop_last());
        if s.last().native.dead {
            prefix
        } else {
            prefix.push(s.last())
        }
    }
}

/// Remove the actors flagged dead, keeping the order of the survivors.
pub fn remove_dead(actors: &mut Vec<Actor>)
    ensures
        final(actors)@ == live_only(old(actors)@),
{
    let ghost s = actors@;
    let mut out: Vec<Actor> = Vec::new();
    let mut i: usize = 0;
    while i < actors.len()
        invariant
            actors@ == s,
            i <= s.len(),
            out@ == live_only(s.subrange(0, i as int)),
        decreases s.len() - i,
    {
        proof {
            assert(s.subrange(0, i + 1).drop_last() =~= s.subrange(0, i as int));
            assert(s.subrange(0, i + 1).last() == s[i as int]);
        }
        let a = actors[i];
        if !a.native.dead {
            out.push(a);
        }
        i = i + 1;
    }
    proof {
        assert(s.subrange(0, s.len() as int) =~= s);
    }
    *actors = out;
}

/// Damage saturation: crew is a saturating counter that can never pass
/// below zero, and for a damage-taking body the dead flag rises exactly
/// when the crew first reaches zero - never while any crew remains.
pub proof fn lemma_damage_saturation(n: ActorNative, dmg: u8)
    requires
        n.specs.takesdamage,
    ensures
        damaged(n, dmg).crew >= 0,
        damaged(n, dmg).crew <= n.crew,
        damaged(n, dmg).crew == 0 <==> n.crew <= dmg,
        !n.dead ==> (damaged(n, dmg).dead <==> damaged(n, dmg).crew == 0),
        n.crew > dmg && !n.dead ==> !damaged(n, dmg).dead,
{
}

} // verus!
