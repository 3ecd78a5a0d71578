use spacefight::archetype::{ActorSpec, Gravity, Hitbox, ObjectType};
use spacefight::body::ActorNative;
use spacefight::collision::{contacting, reflect};
use spacefight::gravity::gravitate;

fn test_ball_spec() -> ActorSpec {
    ActorSpec {
        maxspeed: 589824,
        acceleration: 0,
        mass: 6,
        turnspeed: 0,
        turnacceleration: 0,
        inertia: 1000,
        gravity: Gravity::none(),
        hitbox: Hitbox::Circle { radius: 10240 },
        objecttype: ObjectType::Ship,
        takesdamage: true,
        maxcrew: 10,
        maxbattery: 0,
        chargetime: 0,
        chargevalue: 0,
        species: "",
    }
}

#[test]
fn speed_cap_rescales_to_the_rated_maximum() {
    let mut n = ActorNative::new(((0, 0), 0), spacefight::archetype::cruiser(), Some(1), 0);
    // 700000 raw exceeds the cruiser's rated 589824; a one-second full
    // thrust along +x pushes it to 1053894, and the decelerating limit
    // (700000 - 353894) already sits below the rated maximum, so the
    // cap rescales exactly onto it.
    n.dx = 700_000;
    n.advance_linear(1024, 1_000_000_000, 1048576, 0);
    assert_eq!(n.dx, 589_824);
    assert_eq!(n.dy, 0);
}

#[test]
fn speed_cap_decelerates_smoothly_from_overload() {
    let mut n = ActorNative::new(((0, 0), 0), spacefight::archetype::cruiser(), Some(1), 0);
    // far above the ceiling: one step sheds at most acceleration * dt
    n.dx = 2_000_000;
    n.advance_linear(1024, 1_000_000_000, 1048576, 0);
    // one second of thrust adds 353894, then the limit is the starting
    // speed less one second of deceleration: 2000000 - 353894 = 1646106
    assert_eq!(n.dx, 1_646_106);
}

#[test]
fn turn_step_matches_the_trapezoidal_rule() {
    let mut n = ActorNative::new(((0, 0), 0), spacefight::archetype::cruiser(), Some(1), 0);
    let mid = n.advance_turn(1024, 16_666_667);
    // angular velocity climbs by turnacceleration * dt, well below the
    // full-steer target, and the heading advances by half that rate
    assert_eq!(n.angularvelocity, 1_317_679);
    assert_eq!(n.heading, 10_980);
    assert_eq!(mid, 5_490);
}

#[test]
fn heading_stays_wrapped_after_many_steps() {
    let mut n = ActorNative::new(((0, 0), 6_588_390), spacefight::archetype::cruiser(), Some(1), 0);
    for _ in 0..240 {
        n.advance_turn(1024, 16_666_667);
        assert!(0 <= n.heading && n.heading < 6_588_397);
    }
}

#[test]
fn gravity_pulls_the_accelerating_body_toward_the_field() {
    let mut planet = ActorNative::new(((0, 0), 0), spacefight::archetype::planet(), None, 0);
    let mut ship = ActorNative::new(
        ((1_024_000, 0), 0),
        spacefight::archetype::avenger(),
        Some(2),
        0,
    );
    gravitate(&mut planet, &mut ship, 16_666_667);
    // exact inverse-square pull at 1000 space units over one frame
    assert_eq!(ship.dx, -187);
    assert_eq!(ship.dy, 0);
    // the planet is a field source only, never accelerated
    assert_eq!(planet.dx, 0);
    assert_eq!(planet.dy, 0);
}

#[test]
fn head_on_circle_collision_halves_the_closing_speed() {
    let spec = test_ball_spec();
    let mut a = ActorNative::new(((0, 0), 0), spec, Some(1), 0);
    let mut b = ActorNative::new(((19_456, 0), 0), spec, Some(2), 0);
    a.dx = 102_400;
    b.dx = -102_400;
    // radius 10 each, 19 units apart: overlapping
    let contact = contacting(&a, 1048576, 0, &b, 1048576, 0).unwrap();
    assert_eq!(contact.normalx, -19_456);
    assert_eq!(contact.normaly, 0);
    let p_before = 6 * (a.dx as i128) + 6 * (b.dx as i128);
    reflect(&mut a, &mut b, contact.normalx, contact.normaly, 0, 0);
    // elasticity one half: each leaves at half its closing speed
    assert_eq!(a.dx, -51_200);
    assert_eq!(b.dx, 51_200);
    assert_eq!(a.dy, 0);
    assert_eq!(b.dy, 0);
    // total momentum is conserved exactly in this symmetric case
    let p_after = 6 * (a.dx as i128) + 6 * (b.dx as i128);
    assert_eq!(p_before, p_after);
}

#[test]
fn separated_circles_do_not_contact() {
    let spec = test_ball_spec();
    let a = ActorNative::new(((0, 0), 0), spec, Some(1), 0);
    let b = ActorNative::new(((20_480, 0), 0), spec, Some(2), 0);
    // exactly touching at the radius sum is not yet a contact
    assert!(contacting(&a, 1048576, 0, &b, 1048576, 0).is_none());
}

#[test]
fn circle_contact_is_symmetric_in_its_operands() {
    let spec = test_ball_spec();
    let a = ActorNative::new(((0, 0), 0), spec, Some(1), 0);
    let b = ActorNative::new(((19_456, 0), 0), spec, Some(2), 0);
    let c1 = contacting(&a, 1048576, 0, &b, 1048576, 0).unwrap();
    let c2 = contacting(&b, 1048576, 0, &a, 1048576, 0).unwrap();
    assert_eq!(c1.normalx, -c2.normalx);
    assert_eq!(c1.normaly, -c2.normaly);
}

#[test]
fn line_hitbox_contacts_a_circle_beside_its_span() {
    // a cruiser hull lying along +x, an avenger's round hull just above
    // its midsection: contact with the line's perpendicular as normal
    let line = ActorNative::new(((0, 0), 0), spacefight::archetype::cruiser(), Some(1), 0);
    let ball = ActorNative::new(((0, 80_000), 0), spacefight::archetype::avenger(), Some(2), 0);
    let c = contacting(&line, 1048576, 0, &ball, 1048576, 0).unwrap();
    assert_eq!(c.normalx, 0);
    assert_eq!(c.normaly, 1048576);
    assert_eq!(c.lever_local, 0);
    assert_eq!(c.lever_remote, 0);
}

#[test]
fn line_hitboxes_contact_through_an_endpoint_cap() {
    // two hulls along the same axis, the missile body just past the
    // cruiser's forward endpoint: the endpoint cap test hits and both
    // lever arms are the projections onto each hull's perpendicular
    let cruiser = ActorNative::new(((0, 0), 0), spacefight::archetype::cruiser(), Some(1), 0);
    let missile = ActorNative::new(
        ((60_000, 0), 0),
        spacefight::archetype::cruiser_missile(),
        Some(2),
        0,
    );
    let c = contacting(&cruiser, 1048576, 0, &missile, 1048576, 0).unwrap();
    assert_eq!(c.normalx, 0);
    assert_eq!(c.normaly, 1048576);
    assert_eq!(c.lever_local, -54_784);
    assert_eq!(c.lever_remote, -5_216);
}
