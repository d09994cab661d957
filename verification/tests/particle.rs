use particles::particle::{
    Particle, DAMPING, GRAVITY, SCATTER_SPEED, SPAWN_SPEED, TIME_TO_LIVE,
};
use particles::scalar::{Scalar, SCALE};
use particles::vector::Vector3;

fn raw(n: i64) -> Scalar {
    Scalar { raw: n }
}

fn vector(x: i64, y: i64, z: i64) -> Vector3 {
    Vector3::new(raw(x), raw(y), raw(z))
}

fn units(x: i32, y: i32, z: i32) -> Vector3 {
    Vector3::new(Scalar::from_int(x), Scalar::from_int(y), Scalar::from_int(z))
}

#[test]
fn constants_of_a_new_particle() {
    assert_eq!(GRAVITY, 0);
    assert_eq!(DAMPING, SCALE / 100);
    assert_eq!(TIME_TO_LIVE, 2 * SCALE);
    assert_eq!(SPAWN_SPEED, 200 * SCALE);
    assert_eq!(SCATTER_SPEED, 100 * SCALE);
}

#[test]
fn vector_arithmetic_goes_axis_by_axis() {
    let a = units(1, 2, 3);
    let b = units(10, -20, 30);
    assert_eq!(a.plus(b), units(11, -18, 33));
    assert_eq!(a.minus(b), units(-9, 22, -27));
    assert_eq!(b.scaled(raw(500_000_000)), units(5, -10, 15));
    assert_eq!(Vector3::zero(), units(0, 0, 0));
    assert_eq!(Vector3::new(raw(1), raw(2), raw(3)), Vector3 { x: raw(1), y: raw(2), z: raw(3) });
}

#[test]
fn new_particle_rests_at_origin_with_usual_coefficients() {
    let p = Particle::new(units(7, 8, 9));
    assert_eq!(p.position, Vector3::zero());
    assert_eq!(p.velocity, units(7, 8, 9));
    assert_eq!(p.time_to_live, Scalar::from_int(2));
    assert_eq!(p.gravity, Scalar::zero());
    assert_eq!(p.damping, raw(10_000_000));
    assert!(!p.expired());
}

#[test]
fn radial_particle_moves_at_spawn_speed() {
    let east = Particle::radial(Scalar::one(), Scalar::zero());
    assert_eq!(east, Particle::new(units(200, 0, 0)));
    let north = Particle::radial(Scalar::zero(), Scalar::one());
    assert_eq!(north, Particle::new(units(0, 200, 0)));
    let west = Particle::radial(Scalar::from_int(-1), Scalar::zero());
    assert_eq!(west.velocity, units(-200, 0, 0));
    let slanted = Particle::radial(raw(600_000_000), raw(-800_000_000));
    assert_eq!(slanted.velocity, units(120, -160, 0));
    assert_eq!(slanted.position, Vector3::zero());
    let speed_squared = i128::from(slanted.velocity.x.raw) * i128::from(slanted.velocity.x.raw)
        + i128::from(slanted.velocity.y.raw) * i128::from(slanted.velocity.y.raw);
    assert_eq!(speed_squared, i128::from(SPAWN_SPEED) * i128::from(SPAWN_SPEED));
}

#[test]
fn radial_speed_follows_the_length_of_the_direction() {
    let cos = raw(707_106_781);
    let sin = raw(707_106_781);
    let p = Particle::radial(cos, sin);
    assert_eq!(p.velocity, vector(141_421_356_200, 141_421_356_200, 0));
    let direction_squared = i128::from(cos.raw) * i128::from(cos.raw)
        + i128::from(sin.raw) * i128::from(sin.raw);
    let speed_squared = i128::from(p.velocity.x.raw) * i128::from(p.velocity.x.raw)
        + i128::from(p.velocity.y.raw) * i128::from(p.velocity.y.raw);
    assert_eq!(speed_squared, 40_000 * direction_squared);
    let wanted = i128::from(SPAWN_SPEED) * i128::from(SPAWN_SPEED);
    assert!((speed_squared - wanted).abs() * 100_000_000 < wanted);
}

#[test]
fn scattered_particle_takes_a_hundred_times_its_shares() {
    let p = Particle::scattered(raw(250_000_000), raw(999_999_940));
    assert_eq!(p, Particle::new(vector(25_000_000_000, 99_999_994_000, 0)));
    let still = Particle::scattered(Scalar::zero(), Scalar::zero());
    assert_eq!(still, Particle::new(Vector3::zero()));
}

#[test]
fn expired_at_zero_and_below() {
    let mut p = Particle::new(Vector3::zero());
    assert!(!p.expired());
    p.time_to_live = raw(1);
    assert!(!p.expired());
    p.time_to_live = raw(0);
    assert!(p.expired());
    p.time_to_live = raw(-1);
    assert!(p.expired());
    p.time_to_live = raw(i64::MIN);
    assert!(p.expired());
}

#[test]
fn advance_shortens_the_lifetime_by_dt() {
    let mut p = Particle::new(units(1, 1, 1));
    let expired = p.advance(raw(250_000_000));
    assert!(!expired);
    assert_eq!(p.time_to_live, raw(1_750_000_000));
    let expired = p.advance(raw(1_750_000_000));
    assert!(expired);
    assert_eq!(p.time_to_live, raw(0));
    let expired = p.advance(raw(1));
    assert!(expired);
    assert_eq!(p.time_to_live, raw(-1));
}

#[test]
fn advance_applies_gravity_then_damping_then_moves() {
    let mut p = Particle {
        position: units(1, 2, 3),
        velocity: units(100, 50, 8),
        time_to_live: Scalar::from_int(2),
        gravity: raw(9_800_000_000),
        damping: raw(10_000_000),
    };
    let expired = p.advance(raw(500_000_000));
    assert!(!expired);
    assert_eq!(p.time_to_live, raw(1_500_000_000));
    assert_eq!(p.velocity, vector(99_500_000_000, 44_874_500_000, 7_960_000_000));
    assert_eq!(p.position, vector(50_750_000_000, 24_437_250_000, 6_980_000_000));
    assert_eq!(p.gravity, raw(9_800_000_000));
    assert_eq!(p.damping, raw(10_000_000));
}

#[test]
fn advance_moves_by_the_new_velocity() {
    let before = Particle {
        position: units(5, 5, 5),
        velocity: units(100, 50, 8),
        time_to_live: Scalar::from_int(2),
        gravity: raw(9_800_000_000),
        damping: raw(10_000_000),
    };
    let dt = raw(500_000_000);
    let mut after = before;
    after.advance(dt);
    assert_eq!(after.position, before.position.plus(after.velocity.scaled(dt)));
    assert_ne!(after.position, before.position.plus(before.velocity.scaled(dt)));
}

#[test]
fn advance_matches_the_velocity_formula() {
    let before = Particle {
        position: Vector3::zero(),
        velocity: units(-30, 12, 4),
        time_to_live: Scalar::from_int(2),
        gravity: raw(2_500_000_000),
        damping: raw(40_000_000),
    };
    let dt = raw(125_000_000);
    let mut after = before;
    after.advance(dt);
    let pull = Vector3::new(Scalar::zero(), before.gravity, Scalar::zero()).scaled(dt);
    let factor = Scalar::one().minus(before.damping.times(dt));
    assert_eq!(after.velocity, before.velocity.minus(pull).scaled(factor));
    assert_eq!(after.velocity, vector(-29_850_000_000, 11_629_062_500, 3_980_000_000));
    assert_eq!(after.time_to_live, before.time_to_live.minus(dt));
}

#[test]
fn advance_of_a_spawned_particle_over_one_sixtieth() {
    let mut p = Particle::radial(Scalar::one(), Scalar::zero());
    let expired = p.advance(raw(16_666_667));
    assert!(!expired);
    assert_eq!(p.velocity, vector(199_966_666_800, 0, 0));
    assert_eq!(p.position, vector(3_332_777_846, 0, 0));
    assert_eq!(p.time_to_live, raw(1_983_333_333));
}

#[test]
fn strong_damping_turns_the_velocity_round() {
    let mut p = Particle {
        position: Vector3::zero(),
        velocity: units(10, -4, 0),
        time_to_live: Scalar::from_int(2),
        gravity: Scalar::zero(),
        damping: Scalar::from_int(3),
    };
    p.advance(Scalar::one());
    assert_eq!(p.velocity, units(-20, 8, 0));
    assert_eq!(p.position, units(-20, 8, 0));
}

#[test]
fn negative_dt_is_taken_as_it_comes() {
    let mut p = Particle {
        position: Vector3::zero(),
        velocity: units(10, 0, 0),
        time_to_live: Scalar::from_int(2),
        gravity: Scalar::one(),
        damping: Scalar::zero(),
    };
    let expired = p.advance(Scalar::from_int(-1));
    assert!(!expired);
    assert_eq!(p.time_to_live, Scalar::from_int(3));
    assert_eq!(p.velocity, units(10, 1, 0));
    assert_eq!(p.position, units(-10, -1, 0));
}

#[test]
fn zero_dt_changes_nothing() {
    let before = Particle::radial(raw(600_000_000), raw(800_000_000));
    let mut after = before;
    let expired = after.advance(Scalar::zero());
    assert!(!expired);
    assert_eq!(after, before);
}

#[test]
fn lifetime_never_grows_while_time_runs_forward() {
    let mut p = Particle::new(units(3, 4, 0));
    let mut last = p.time_to_live;
    for step in 0..200 {
        p.advance(raw(step * 1_000_000));
        assert!(p.time_to_live.raw <= last.raw);
        last = p.time_to_live;
    }
}

#[test]
fn advance_stops_at_the_ends_of_the_range() {
    let mut p = Particle {
        position: Vector3::zero(),
        velocity: vector(i64::MAX, 0, 0),
        time_to_live: raw(i64::MAX),
        gravity: Scalar::zero(),
        damping: Scalar::zero(),
    };
    let expired = p.advance(Scalar::from_int(-2));
    assert!(!expired);
    assert_eq!(p.time_to_live, raw(i64::MAX));
    assert_eq!(p.velocity, vector(i64::MAX, 0, 0));
    assert_eq!(p.position, vector(i64::MIN, 0, 0));
    let mut q = Particle {
        position: units(1, 2, 3),
        velocity: vector(i64::MAX, 0, 0),
        time_to_live: raw(i64::MIN),
        gravity: Scalar::zero(),
        damping: Scalar::zero(),
    };
    let expired = q.advance(Scalar::from_int(2));
    assert!(expired);
    assert_eq!(q.time_to_live, raw(i64::MIN));
    assert_eq!(q.velocity, vector(i64::MAX, 0, 0));
    assert_eq!(q.position, units(1, 2, 3));
}

#[test]
fn expiring_particle_keeps_its_position() {
    let mut p = Particle {
        position: Vector3::zero(),
        velocity: units(10, 0, 0),
        time_to_live: Scalar::from_int(1),
        gravity: Scalar::zero(),
        damping: Scalar::zero(),
    };
    let expired = p.advance(Scalar::from_int(1));
    assert!(expired);
    assert_eq!(p.time_to_live, Scalar::zero());
    assert_eq!(p.position, Vector3::zero());
    assert_eq!(p.velocity, units(10, 0, 0));
}

#[test]
fn expiring_particle_still_slows_down_and_falls() {
    let mut p = Particle {
        position: units(1, 2, 3),
        velocity: units(100, 50, 8),
        time_to_live: raw(400_000_000),
        gravity: raw(9_800_000_000),
        damping: raw(10_000_000),
    };
    let expired = p.advance(raw(500_000_000));
    assert!(expired);
    assert_eq!(p.time_to_live, raw(-100_000_000));
    assert_eq!(p.velocity, vector(99_500_000_000, 44_874_500_000, 7_960_000_000));
    assert_eq!(p.position, units(1, 2, 3));
    let expired = p.advance(raw(500_000_000));
    assert!(expired);
    assert_eq!(p.position, units(1, 2, 3));
}

#[test]
fn particle_with_a_billionth_left_after_the_step_moves() {
    let mut p = Particle {
        position: Vector3::zero(),
        velocity: units(10, 0, 0),
        time_to_live: raw(1_000_000_001),
        gravity: Scalar::zero(),
        damping: Scalar::zero(),
    };
    let expired = p.advance(Scalar::one());
    assert!(!expired);
    assert_eq!(p.time_to_live, raw(1));
    assert_eq!(p.position, units(10, 0, 0));
}

#[test]
fn rounded_direction_gives_spawn_speed_within_tolerance() {
    let cos = raw(707_106_781);
    let sin = raw(-707_106_781);
    let slack: i128 = 1;
    let scale = i128::from(SCALE);
    let length_squared = i128::from(cos.raw) * i128::from(cos.raw)
        + i128::from(sin.raw) * i128::from(sin.raw);
    assert!((scale - slack) * (scale - slack) <= length_squared);
    assert!(length_squared <= (scale + slack) * (scale + slack));
    let p = Particle::radial(cos, sin);
    let speed_squared = i128::from(p.velocity.x.raw) * i128::from(p.velocity.x.raw)
        + i128::from(p.velocity.y.raw) * i128::from(p.velocity.y.raw)
        + i128::from(p.velocity.z.raw) * i128::from(p.velocity.z.raw);
    let speed = i128::from(SPAWN_SPEED);
    assert!((speed - 200 * slack) * (speed - 200 * slack) <= speed_squared);
    assert!(speed_squared <= (speed + 200 * slack) * (speed + 200 * slack));
    assert_ne!(speed_squared, speed * speed);
}
