use spacefight::actor::{Actor, ActorTranslatorEnum, collect_views, gen_planet, remove_dead};
use spacefight::behavior::{
    ActorGeneratorEnum,
    ActorView,
    Avenger,
    Cruiser,
    CruiserMissile,
    NoControl,
};
use spacefight::body::ActorNative;
use spacefight::timing::Timer;

fn missile_actor(position: ((i64, i64), i64), affiliation: u8, now: u64) -> Actor {
    Actor::new(
        ActorNative::new(
            position,
            spacefight::archetype::cruiser_missile(),
            Some(affiliation),
            now,
        ),
        ActorGeneratorEnum::NoControl(NoControl),
        ActorTranslatorEnum::CruiserMissile(CruiserMissile {
            ttl: Timer::new(now, 2_500_000_000),
        }),
    )
}

#[test]
fn missile_locks_on_straight_ahead() {
    let mut m = missile_actor(((0, 0), 0), 1, 0);
    let translator = match m.translator {
        ActorTranslatorEnum::CruiserMissile(t) => t,
        _ => unreachable!(),
    };
    let hostile_ahead = vec![ActorView { affiliation: Some(2), x: 409_600, y: 0 }];
    let r = translator.update(&mut m.native, 1_000, 1048576, 0, &hostile_ahead);
    // target exactly on the heading axis: no steering, full throttle
    assert_eq!(r.steer, 0);
    assert_eq!(r.throttle, 1024);
    assert!(!m.native.dead);
}

#[test]
fn missile_saturates_toward_an_offset_target() {
    let mut m = missile_actor(((0, 0), 0), 1, 0);
    let translator = match m.translator {
        ActorTranslatorEnum::CruiserMissile(t) => t,
        _ => unreachable!(),
    };
    // two hostiles; the nearer one sits above the axis and well past the
    // small-angle threshold, so steering saturates toward it
    let hostiles = vec![
        ActorView { affiliation: Some(2), x: -10_240, y: 5_120 },
        ActorView { affiliation: Some(2), x: 10_240, y: 1_024 },
    ];
    let r = translator.update(&mut m.native, 1_000, 1048576, 0, &hostiles);
    assert_eq!(r.steer, 1024);
    assert_eq!(r.throttle, 1024);
}

#[test]
fn missile_ignores_its_own_side_and_neutrals() {
    let mut m = missile_actor(((0, 0), 0), 1, 0);
    let translator = match m.translator {
        ActorTranslatorEnum::CruiserMissile(t) => t,
        _ => unreachable!(),
    };
    let friends = vec![
        ActorView { affiliation: Some(1), x: 10_240, y: 5_120 },
        ActorView { affiliation: None, x: -10_240, y: 1_024 },
    ];
    let r = translator.update(&mut m.native, 1_000, 1048576, 0, &friends);
    assert_eq!(r.steer, 0);
    assert_eq!(r.throttle, 1024);
}

#[test]
fn missile_dies_quietly_on_expiry() {
    let mut m = missile_actor(((0, 0), 0), 1, 0);
    let translator = match m.translator {
        ActorTranslatorEnum::CruiserMissile(t) => t,
        _ => unreachable!(),
    };
    let none: Vec<ActorView> = Vec::new();
    let r = translator.update(&mut m.native, 2_500_000_001, 1048576, 0, &none);
    assert!(m.native.dead);
    assert_eq!(r.steer, 0);
    assert_eq!(r.throttle, 0);
}

#[test]
fn planet_contact_quarters_the_crew_and_bounces() {
    let mut planet = gen_planet(((0, 0), 0), 0);
    let mut ship = Cruiser::gen(
        ((102_400, 0), 0),
        1,
        ActorGeneratorEnum::NoControl(NoControl),
        0,
    );
    assert_eq!(ship.native.crew, 18);
    ship.native.dx = -51_200;
    planet.collide(&mut ship, 0, 1048576, 0, 1048576, 0);
    // damage is a quarter of 18 crew, truncated: exactly 4
    assert_eq!(ship.native.crew, 14);
    assert!(!ship.native.dead);
    // both sides reported the contact as kinetic, so the ship bounces
    // off at half its approach speed while the planet stays put
    assert_eq!(ship.native.dx, 25_600);
    assert_eq!(planet.native.dx, 0);
    assert_eq!(planet.native.crew, 1);
}

#[test]
fn planet_contact_damage_is_at_least_one() {
    let mut planet = gen_planet(((0, 0), 0), 0);
    let mut ship = Cruiser::gen(
        ((102_400, 0), 0),
        1,
        ActorGeneratorEnum::NoControl(NoControl),
        0,
    );
    // wear the crew down to 3: a quarter truncates to 0, so the floor of
    // one point applies on each further contact
    ship.native.damage(15);
    assert_eq!(ship.native.crew, 3);
    planet.collide(&mut ship, 0, 1048576, 0, 1048576, 0);
    assert_eq!(ship.native.crew, 2);
}

#[test]
fn missile_hit_damages_and_self_destructs_without_bouncing() {
    let mut missile = missile_actor(((0, 0), 0), 1, 0);
    let mut target = Avenger::gen(
        ((10_240, 0), 0),
        2,
        ActorGeneratorEnum::NoControl(NoControl),
        0,
    );
    assert_eq!(target.native.crew, 22);
    target.native.dx = -1_000;
    missile.collide(&mut target, 0, 1048576, 0, 1048576, 0);
    assert_eq!(target.native.crew, 18);
    assert!(missile.native.dead);
    // the missile reports the contact silent: no bounce for either side
    assert_eq!(target.native.dx, -1_000);
    assert_eq!(missile.native.dx, 0);
}

#[test]
fn damage_saturates_and_death_comes_exactly_at_zero_crew() {
    let mut n = ActorNative::new(((0, 0), 0), spacefight::archetype::cruiser(), Some(1), 0);
    assert_eq!(n.crew, 18);
    n.damage(5);
    assert_eq!(n.crew, 13);
    assert!(!n.dead);
    n.damage(5);
    n.damage(5);
    assert_eq!(n.crew, 3);
    assert!(!n.dead);
    n.damage(3);
    assert_eq!(n.crew, 0);
    assert!(n.dead);
    // further damage saturates at zero and the flag stays set
    n.damage(200);
    assert_eq!(n.crew, 0);
    assert!(n.dead);
}

#[test]
fn damage_spares_classes_that_take_none() {
    let mut planet = gen_planet(((0, 0), 0), 0);
    planet.native.damage(200);
    assert_eq!(planet.native.crew, 1);
    assert!(!planet.native.dead);
}

#[test]
fn remove_dead_keeps_the_survivors_in_order() {
    let a = gen_planet(((0, 0), 0), 0);
    let mut b = gen_planet(((1_024, 0), 0), 0);
    b.native.dead = true;
    let c = gen_planet(((2_048, 0), 0), 0);
    let mut live = vec![a, b, c];
    remove_dead(&mut live);
    assert_eq!(live.len(), 2);
    assert_eq!(live[0].native.x, 0);
    assert_eq!(live[1].native.x, 2_048);
}

#[test]
fn collect_views_snapshots_position_and_affiliation() {
    let a = Cruiser::gen(((5, 6), 0), 1, ActorGeneratorEnum::NoControl(NoControl), 0);
    let b = gen_planet(((7, 8), 0), 0);
    let views = collect_views(&vec![a, b]);
    assert_eq!(views.len(), 2);
    assert_eq!(views[0].x, 5);
    assert_eq!(views[0].y, 6);
    assert_eq!(views[0].affiliation, Some(1));
    assert_eq!(views[1].affiliation, None);
}

#[test]
fn frame_update_steers_and_throttles_from_held_keys() {
    let mut ship = Cruiser::gen(
        ((0, 0), 0),
        1,
        ActorGeneratorEnum::UserControl(spacefight::behavior::UserControl),
        0,
    );
    let keys = spacefight::input::KeyState {
        left: false,
        right: true,
        thrust: true,
        fire: false,
        secondary: false,
    };
    let none: Vec<ActorView> = Vec::new();
    let (mid, throttle, summon) = ship.update(keys, 1_000, 16_666_667, 1048576, 0, &none);
    assert_eq!(throttle, 1024);
    assert_eq!(summon.len(), 0);
    assert_eq!(ship.native.angularvelocity, 1_317_679);
    assert_eq!(ship.native.heading, 10_980);
    assert_eq!(mid, 5_490);
    ship.update_linear(throttle, 16_666_667, 1048576, 0);
    assert!(ship.native.dx > 0);
}

#[test]
fn targeting_tie_break_keeps_the_first_of_equals() {
    let mut m = missile_actor(((0, 0), 0), 1, 0);
    let translator = match m.translator {
        ActorTranslatorEnum::CruiserMissile(t) => t,
        _ => unreachable!(),
    };
    // two hostiles at the same squared distance, on opposite sides: the
    // first one found keeps the lock, so steering goes its way
    let hostiles = vec![
        ActorView { affiliation: Some(2), x: 10_240, y: 10_240 },
        ActorView { affiliation: Some(2), x: 10_240, y: -10_240 },
    ];
    let r = translator.update(&mut m.native, 1_000, 1048576, 0, &hostiles);
    // the first target sits above the heading axis, so the missile
    // steers right, toward it, at full deflection
    assert_eq!(r.steer, 1024);
}

#[test]
fn interact_applies_gravity_and_contact_in_one_call() {
    // far apart: only gravity acts
    let mut planet = gen_planet(((0, 0), 0), 0);
    let mut ship = Avenger::gen(
        ((1_024_000, 0), 0),
        2,
        ActorGeneratorEnum::NoControl(NoControl),
        0,
    );
    planet.interact(&mut ship, 16_666_667, 1048576, 0, 1048576, 0);
    assert_eq!(ship.native.dx, -187);
    assert_eq!(ship.native.crew, 22);

    // overlapping: gravity and the contact response both apply
    let mut planet2 = gen_planet(((0, 0), 0), 0);
    let mut ship2 = Avenger::gen(
        ((102_400, 0), 0),
        2,
        ActorGeneratorEnum::NoControl(NoControl),
        0,
    );
    planet2.interact(&mut ship2, 0, 1048576, 0, 1048576, 0);
    // a quarter of 22 crew, truncated
    assert_eq!(ship2.native.crew, 17);
    assert!(!ship2.native.dead);
}
