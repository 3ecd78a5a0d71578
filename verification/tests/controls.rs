use spacefight::actor::ActorTranslatorEnum;
use spacefight::behavior::{ActorGeneratorEnum, Cruiser, NoControl};
use spacefight::input::Input;
use spacefight::timing::{FireRate, Timer};

#[test]
fn input_new_sets_exactly_the_held_controls() {
    let i = Input::new(true, false, true, false, false);
    assert!(i.is(Input::left()));
    assert!(!i.is(Input::right()));
    assert!(i.is(Input::thrust()));
    assert!(!i.is(Input::fire()));
    assert!(!i.is(Input::secondary()));
}

#[test]
fn input_normalize_cancels_contradictory_turns() {
    let i = Input::new(true, true, true, true, false).normalize();
    assert!(!i.is(Input::left()));
    assert!(!i.is(Input::right()));
    assert!(i.is(Input::thrust()));
    assert!(i.is(Input::fire()));
}

#[test]
fn input_normalize_keeps_a_single_turn() {
    let i = Input::new(true, false, false, false, false).normalize();
    assert!(i.is(Input::left()));
    assert!(!i.is(Input::right()));
}

#[test]
fn input_bitor_unions() {
    let i = Input::new(true, false, false, false, false).bitor(
        Input::new(false, false, false, true, false),
    );
    assert!(i.is(Input::left()));
    assert!(i.is(Input::fire()));
    assert!(!i.is(Input::thrust()));
}

#[test]
fn timer_is_done_strictly_after_its_deadline() {
    let t = Timer::new(100, 50);
    assert!(!t.done(100));
    assert!(!t.done(150));
    assert!(t.done(151));
}

#[test]
fn fire_rate_allows_one_shot_per_cooldown() {
    let mut f = FireRate::new(1000, 400);
    assert!(!f.try_fire(1000));
    assert!(f.try_fire(1001));
    assert!(!f.try_fire(1100));
    assert!(!f.try_fire(1401));
    assert!(f.try_fire(1402));
}

#[test]
fn cruiser_fire_logic_spawns_only_once_within_the_cooldown() {
    let a = Cruiser::gen(
        ((0, 0), 0),
        1,
        ActorGeneratorEnum::NoControl(NoControl),
        1_000,
    );
    let mut native = a.native;
    let mut translator = match a.translator {
        ActorTranslatorEnum::Cruiser(c) => c,
        _ => unreachable!(),
    };
    let fire = Input::new(false, false, false, true, false);
    let first = translator.update(&mut native, fire, 2_000, 1048576, 0);
    assert_eq!(first.summon.len(), 1);
    assert_eq!(native.battery, 9);
    // well inside the 416_666_667 ns cooldown: refused, battery untouched
    let second = translator.update(&mut native, fire, 2_500, 1048576, 0);
    assert_eq!(second.summon.len(), 0);
    assert_eq!(native.battery, 9);
    // after the cooldown the next shot goes through
    let third = translator.update(&mut native, fire, 2_000 + 416_666_668, 1048576, 0);
    assert_eq!(third.summon.len(), 1);
    assert_eq!(native.battery, 0);
    // battery can no longer pay the cost
    let fourth = translator.update(&mut native, fire, 2 * 416_666_668 + 2_000, 1048576, 0);
    assert_eq!(fourth.summon.len(), 0);
}

#[test]
fn spawned_missile_starts_ahead_with_launch_velocity() {
    let a = Cruiser::gen(
        ((10_240, 0), 0),
        1,
        ActorGeneratorEnum::NoControl(NoControl),
        1_000,
    );
    let mut native = a.native;
    let mut translator = match a.translator {
        ActorTranslatorEnum::Cruiser(c) => c,
        _ => unreachable!(),
    };
    // the hull is already under way: the launch speed adds to it
    native.dx = 10_000;
    let fire = Input::new(false, false, false, true, false);
    let r = translator.update(&mut native, fire, 2_000, 1048576, 0);
    assert_eq!(r.summon.len(), 1);
    let m = &r.summon[0];
    // offset 128 space units ahead, speed 960 space units per second
    // along +x on top of the hull's own 10000 raw units
    assert_eq!(m.native.x, 10_240 + 131_072);
    assert_eq!(m.native.y, 0);
    assert_eq!(m.native.dx, 993_040);
    assert_eq!(m.native.dy, 0);
    assert_eq!(m.native.affiliation, Some(1));
    assert!(!m.native.dead);
}
