//! Immutable per-archetype physical constants, shared by every actor of a
//! class.  All dimensioned constants are fixed point in the scales of
//! `units`; angles are radians times `RAD_SCALE`, lengths and speeds carry
//! `SCALE`, and the rotational-inertia factor is in whole square space
//! units (so that a velocity-change times a lever arm divided by it is
//! directly an angular velocity in raw units).

use vstd::prelude::*;


verus! {

/// Upper bound on a rated speed or acceleration constant.
pub const SPEC_RATE_LIMIT: i64 = 0x1_0000_0000;

/// Upper bound on a turn rate or turn acceleration constant.
pub const SPEC_TURN_LIMIT: i64 = 0x1_0000_0000;

/// Upper bound on a hitbox dimension.
pub const HITBOX_LIMIT: i64 = 0x40_0000;

/// Upper bound on a mass, in tons.
pub const MASS_LIMIT: i128 = 200_000_000_000_000_000_000_000;

/// Gravity participation, a pair of independent role flags: bit 0 means the
/// body is accelerated by fields, bit 1 means it is itself a field source.
#[derive(Clone, Copy, Debug)]
pub struct Gravity(u8);

impl Gravity {
    /// The raw flags, for contracts.
    pub closed spec fn bits(self) -> u8 {
        self.0
    }

    /// Neither attracted nor attracting.
    pub fn none() -> (r: Gravity)
        ensures
            r.bits() == 0,
    {
        Gravity(0)
    }

    /// Accelerated by gravity fields.
    pub fn accelerate() -> (r: Gravity)
        ensures
            r.bits() == 1,
    {
        Gravity(1)
    }

    /// A source of gravity.
    pub fn field() -> (r: Gravity)
        ensures
            r.bits() == 2,
    {
        Gravity(2)
    }

    /// Both a source and a subject of gravity.
    pub fn full() -> (r: Gravity)
        ensures
            r.bits() == 3,
    {
        Gravity(3)
    }

    /// Whether this role includes any flag of `prop`.
    pub fn supports(self, prop: Gravity) -> (r: bool)
        ensures
            r == (self.bits() & prop.bits() != 0),
    {
        self.0 & prop.0 != 0
    }
}

/// The collision shape of an archetype.  `Absent` never collides.
#[derive(Clone, Copy, Debug)]
pub enum Hitbox {
    Absent,
    Circle { radius: i64 },
    Line { length: i64, radius: i64 },
}

impl Hitbox {
    /// Dimensions are positive and bounded.
    pub open spec fn wf(self) -> bool {
        match self {
            Hitbox::Absent => true,
            Hitbox::Circle { radius } => 0 < radius <= HITBOX_LIMIT,
            Hitbox::Line { length, radius } => 0 < radius <= HITBOX_LIMIT && 0 < length
                <= HITBOX_LIMIT,
        }
    }
}

/// The broad class of an actor.
#[derive(Clone, Copy, Debug, PartialEq, Eq, Structural)]
pub enum ObjectType {
    Planet,
    Asteroid,
    Ship,
    Projectile,
}

/// The physical constants of one actor class.
#[derive(Clone, Copy, Debug)]
pub struct ActorSpec {
    /// Rated speed ceiling, raw velocity units.
    pub maxspeed: i64,
    /// Thrust acceleration, raw velocity units per second.
    pub acceleration: i64,
    /// Mass in tons.
    pub mass: i128,
    /// Full-steer angular speed, raw angle units per second.
    pub turnspeed: i64,
    /// Angular acceleration toward the steering target, raw angle units per
    /// second squared.
    pub turnacceleration: i64,
    /// Moment of inertia divided by mass, in whole square space units.
    pub inertia: i64,
    /// Gravity participation.
    pub gravity: Gravity,
    /// Collision shape.
    pub hitbox: Hitbox,
    /// Broad class.
    pub objecttype: ObjectType,
    /// Whether contact damage reduces this class's crew.
    pub takesdamage: bool,
    /// Crew capacity.
    pub maxcrew: u8,
    /// Battery capacity.
    pub maxbattery: u8,
    /// Nanoseconds between battery recharge ticks.
    pub chargetime: u64,
    /// Battery points gained per recharge tick.
    pub chargevalue: u8,
    /// Display name of the species crewing this class.
    pub species: &'static str,
}

impl ActorSpec {
    /// Every constant sits inside the engine's working ranges.
    pub open spec fn wf(self) -> bool {
        &&& 0 <= self.maxspeed <= SPEC_RATE_LIMIT
        &&& 0 <= self.acceleration <= SPEC_RATE_LIMIT
        &&& 1 <= self.mass <= MASS_LIMIT
        &&& 0 <= self.turnspeed <= SPEC_TURN_LIMIT
        &&& 0 <= self.turnacceleration <= SPEC_TURN_LIMIT
        &&& 1 <= self.inertia <= 0x10_0000
        &&& self.chargetime <= 4_000_000_000
        &&& self.hitbox.wf()
    }
}


/// The planet's constants, as a mathematical value.
pub closed spec fn planet_def() -> ActorSpec {
    ActorSpec {
        maxspeed: 0,
        acceleration: 0,
        mass: 100_000_000_000_000_000_000_000,
        turnspeed: 0,
        turnacceleration: 0,
        inertia: 9000,
        gravity: Gravity(2),
        hitbox: Hitbox::Circle { radius: 153600 },
        objecttype: ObjectType::Planet,
        takesdamage: false,
        maxcrew: 1,
        maxbattery: 0,
        chargetime: 0,
        chargevalue: 0,
        species: "",
    }
}

/// The cruiser's constants, as a mathematical value.
pub closed spec fn cruiser_def() -> ActorSpec {
    ActorSpec {
        maxspeed: 589824,
        acceleration: 353894,
        mass: 6,
        turnspeed: 4941298,
        turnacceleration: 79060765,
        inertia: 1872,
        gravity: Gravity(1),
        hitbox: Hitbox::Line { length: 109568, radius: 19456 },
        objecttype: ObjectType::Ship,
        takesdamage: true,
        maxcrew: 18,
        maxbattery: 18,
        chargetime: 375_000_000,
        chargevalue: 1,
        species: "Human",
    }
}

/// The missile's constants, as a mathematical value.
pub closed spec fn cruiser_missile_def() -> ActorSpec {
    ActorSpec {
        maxspeed: 1966080,
        acceleration: 31457280,
        mass: 1,
        turnspeed: 1100262,
        turnacceleration: 17591020,
        inertia: 1291,
        gravity: Gravity(1),
        hitbox: Hitbox::Line { length: 77824, radius: 6144 },
        objecttype: ObjectType::Projectile,
        takesdamage: true,
        maxcrew: 4,
        maxbattery: 0,
        chargetime: 0,
        chargevalue: 0,
        species: "",
    }
}

/// The avenger's constants, as a mathematical value.
pub closed spec fn avenger_def() -> ActorSpec {
    ActorSpec {
        maxspeed: 614400,
        acceleration: 2949120,
        mass: 7,
        turnspeed: 3261257,
        turnacceleration: 52180105,
        inertia: 2880,
        gravity: Gravity(1),
        hitbox: Hitbox::Circle { radius: 77824 },
        objecttype: ObjectType::Ship,
        takesdamage: true,
        maxcrew: 22,
        maxbattery: 16,
        chargetime: 208_333_333,
        chargevalue: 4,
        species: "Ilwrath",
    }
}

/// The immovable planet: a pure gravity source with a wide circular hitbox.
pub fn planet() -> (r: ActorSpec)
    ensures
        r == planet_def(),
        r.wf(),
        r.maxspeed == 0,
        r.acceleration == 0,
        r.mass == 100_000_000_000_000_000_000_000int,
        r.turnspeed == 0,
        r.turnacceleration == 0,
        r.inertia == 9000,
        r.gravity.bits() == 2,
        r.hitbox == (Hitbox::Circle { radius: 153600 }),
        r.objecttype == ObjectType::Planet,
        !r.takesdamage,
        r.maxcrew == 1,
        r.maxbattery == 0,
        r.chargetime == 0,
        r.chargevalue == 0,
{
    ActorSpec {
        maxspeed: 0,
        acceleration: 0,
        mass: 100_000_000_000_000_000_000_000,
        turnspeed: 0,
        turnacceleration: 0,
        inertia: 9000,
        gravity: Gravity::field(),
        hitbox: Hitbox::Circle { radius: 153600 },
        objecttype: ObjectType::Planet,
        takesdamage: false,
        maxcrew: 1,
        maxbattery: 0,
        chargetime: 0,
        chargevalue: 0,
        species: "",
    }
}

/// The player cruiser: a long hull that fires homing missiles.
pub fn cruiser() -> (r: ActorSpec)
    ensures
        r == cruiser_def(),
        r.wf(),
        r.maxspeed == 589824,
        r.acceleration == 353894,
        r.mass == 6,
        r.turnspeed == 4941298,
        r.turnacceleration == 79060765,
        r.inertia == 1872,
        r.gravity.bits() == 1,
        r.hitbox == (Hitbox::Line { length: 109568, radius: 19456 }),
        r.objecttype == ObjectType::Ship,
        r.takesdamage,
        r.maxcrew == 18,
        r.maxbattery == 18,
        r.chargetime == 375_000_000,
        r.chargevalue == 1,
{
    ActorSpec {
        maxspeed: 589824,
        acceleration: 353894,
        mass: 6,
        turnspeed: 4941298,
        turnacceleration: 79060765,
        inertia: 1872,
        gravity: Gravity::accelerate(),
        hitbox: Hitbox::Line { length: 109568, radius: 19456 },
        objecttype: ObjectType::Ship,
        takesdamage: true,
        maxcrew: 18,
        maxbattery: 18,
        chargetime: 375_000_000,
        chargevalue: 1,
        species: "Human",
    }
}

/// The cruiser's homing missile.
pub fn cruiser_missile() -> (r: ActorSpec)
    ensures
        r == cruiser_missile_def(),
        r.wf(),
        r.maxspeed == 1966080,
        r.acceleration == 31457280,
        r.mass == 1,
        r.turnspeed == 1100262,
        r.turnacceleration == 17591020,
        r.inertia == 1291,
        r.gravity.bits() == 1,
        r.hitbox == (Hitbox::Line { length: 77824, radius: 6144 }),
        r.objecttype == ObjectType::Projectile,
        r.takesdamage,
        r.maxcrew == 4,
        r.maxbattery == 0,
        r.chargetime == 0,
        r.chargevalue == 0,
{
    ActorSpec {
        maxspeed: 1966080,
        acceleration: 31457280,
        mass: 1,
        turnspeed: 1100262,
        turnacceleration: 17591020,
        inertia: 1291,
        gravity: Gravity::accelerate(),
        hitbox: Hitbox::Line { length: 77824, radius: 6144 },
        objecttype: ObjectType::Projectile,
        takesdamage: true,
        maxcrew: 4,
        maxbattery: 0,
        chargetime: 0,
        chargevalue: 0,
        species: "",
    }
}

/// The avenger: a round hull with a fast battery.
pub fn avenger() -> (r: ActorSpec)
    ensures
        r == avenger_def(),
        r.wf(),
        r.maxspeed == 614400,
        r.acceleration == 2949120,
        r.mass == 7,
        r.turnspeed == 3261257,
        r.turnacceleration == 52180105,
        r.inertia == 2880,
        r.gravity.bits() == 1,
        r.hitbox == (Hitbox::Circle { radius: 77824 }),
        r.objecttype == ObjectType::Ship,
        r.takesdamage,
        r.maxcrew == 22,
        r.maxbattery == 16,
        r.chargetime == 208_333_333,
        r.chargevalue == 4,
{
    ActorSpec {
        maxspeed: 614400,
        acceleration: 2949120,
        mass: 7,
        turnspeed: 3261257,
        turnacceleration: 52180105,
        inertia: 2880,
        gravity: Gravity::accelerate(),
        hitbox: Hitbox::Circle { radius: 77824 },
        objecttype: ObjectType::Ship,
        takesdamage: true,
        maxcrew: 22,
        maxbattery: 16,
        chargetime: 208_333_333,
        chargevalue: 4,
        species: "Ilwrath",
    }
}

} // verus!
