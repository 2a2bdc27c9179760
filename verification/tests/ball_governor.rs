use rusty_pong::ball::{
    create_ball, govern_velocity, maintain_ball_velocity, Ball, SpeedPolicy, Vec2, MAX_VELOCITY,
    MIN_VELOCITY, UNIT,
};

const STANDARD: SpeedPolicy = SpeedPolicy::Range { min: MIN_VELOCITY, max: MAX_VELOCITY };

fn speed_squared(v: Vec2) -> i128 {
    (v.x as i128) * (v.x as i128) + (v.y as i128) * (v.y as i128)
}

fn square(s: i32) -> i128 {
    (s as i128) * (s as i128)
}

fn units(x: f64, y: f64) -> Vec2 {
    Vec2 { x: (x * UNIT as f64).round() as i32, y: (y * UNIT as f64).round() as i32 }
}

#[test]
fn speeds_of_the_standard_game() {
    assert_eq!(UNIT, 1_000_000);
    assert_eq!(MIN_VELOCITY, 7_000_000);
    assert_eq!(MAX_VELOCITY, 20_000_000);
}

#[test]
fn serve_leaves_the_centre_toward_the_receiver() {
    let right = create_ball(true);
    assert_eq!(right.position, Vec2 { x: 0, y: 0 });
    assert_eq!(right.velocity, Vec2 { x: 7_000_000, y: 0 });
    let left = create_ball(false);
    assert_eq!(left.position, Vec2 { x: 0, y: 0 });
    assert_eq!(left.velocity, Vec2 { x: -7_000_000, y: 0 });
}

#[test]
fn target_policy_brings_a_slow_ball_to_the_target() {
    let policy = SpeedPolicy::Target { target: 10 * UNIT, tolerance: UNIT / 2 };
    assert_eq!(govern_velocity(policy, units(5.0, 0.0)), units(10.0, 0.0));
}

#[test]
fn ball_at_rest_is_left_alone() {
    let zero = Vec2 { x: 0, y: 0 };
    let policy = SpeedPolicy::Target { target: 10 * UNIT, tolerance: UNIT / 2 };
    assert_eq!(govern_velocity(policy, zero), zero);
    assert_eq!(govern_velocity(STANDARD, zero), zero);
}

#[test]
fn target_policy_leaves_speeds_within_tolerance() {
    let policy = SpeedPolicy::Target { target: 10 * UNIT, tolerance: UNIT / 2 };
    for v in [units(10.0, 0.0), units(9.5, 0.0), units(0.0, -10.5), units(6.0, 8.0), units(-7.0, 7.0)] {
        assert_eq!(govern_velocity(policy, v), v);
    }
}

#[test]
fn target_policy_slows_a_fast_ball() {
    let policy = SpeedPolicy::Target { target: 10 * UNIT, tolerance: UNIT / 2 };
    assert_eq!(govern_velocity(policy, units(0.0, -10.6)), units(0.0, -10.0));
    assert_eq!(govern_velocity(policy, units(-12.0, 16.0)), units(-6.0, 8.0));
    assert_eq!(govern_velocity(policy, units(9.4, 0.0)), units(10.0, 0.0));
}

#[test]
fn range_policy_raises_a_slow_ball_to_the_minimum() {
    assert_eq!(govern_velocity(STANDARD, units(3.0, 4.0)), units(4.2, 5.6));
    assert_eq!(govern_velocity(STANDARD, units(-3.0, -4.0)), units(-4.2, -5.6));
    assert_eq!(govern_velocity(STANDARD, units(0.0, 0.000001)), units(0.0, 7.0));
}

#[test]
fn range_policy_caps_a_fast_ball_at_the_maximum() {
    assert_eq!(govern_velocity(STANDARD, units(30.0, 40.0)), units(12.0, 16.0));
    assert_eq!(govern_velocity(STANDARD, units(-25.0, 0.0)), units(-20.0, 0.0));
    assert_eq!(
        govern_velocity(STANDARD, Vec2 { x: i32::MIN, y: i32::MAX }),
        Vec2 { x: -14_142_135, y: 14_142_135 }
    );
}

#[test]
fn range_policy_leaves_speeds_within_the_range() {
    for v in [units(7.0, 0.0), units(0.0, 20.0), units(-12.0, 16.0), units(10.0, -10.0)] {
        assert_eq!(govern_velocity(STANDARD, v), v);
    }
}

#[test]
fn raising_rounds_away_from_zero_and_capping_toward_it() {
    // 7 / sqrt(2) = 4.9497474683..., 20 / sqrt(2) = 14.1421356237...
    assert_eq!(
        govern_velocity(STANDARD, Vec2 { x: 1, y: -1 }),
        Vec2 { x: 4_949_748, y: -4_949_748 }
    );
    assert_eq!(
        govern_velocity(STANDARD, units(-100.0, 100.0)),
        Vec2 { x: -14_142_135, y: 14_142_135 }
    );
}

#[test]
fn governed_speed_lies_in_the_band() {
    let mut seed: u64 = 0x2545_f491_4f6c_dd1d;
    for _ in 0..2000 {
        seed ^= seed << 13;
        seed ^= seed >> 7;
        seed ^= seed << 17;
        let x = (seed as u32) as i32 >> (seed >> 59);
        let y = ((seed >> 32) as u32) as i32 >> ((seed >> 54) & 31);
        let v = Vec2 { x, y };
        if v.x == 0 && v.y == 0 {
            continue;
        }
        let r = govern_velocity(STANDARD, v);
        let n = speed_squared(r);
        assert!(square(MIN_VELOCITY) <= n && n <= square(MAX_VELOCITY), "{v:?} -> {r:?}");
        assert!(r.x.signum() == v.x.signum() || r.x == 0 && v.x.abs() < v.y.abs(), "{v:?} -> {r:?}");
        assert!(r.y.signum() == v.y.signum() || r.y == 0 && v.y.abs() < v.x.abs(), "{v:?} -> {r:?}");
        let cross = (r.x as i128) * (v.y as i128) - (r.y as i128) * (v.x as i128);
        assert!(cross.abs() <= (v.x as i128).abs() + (v.y as i128).abs(), "{v:?} -> {r:?}");
        assert_eq!(govern_velocity(STANDARD, r), r);
    }
}

#[test]
fn governed_direction_matches_the_normalised_velocity() {
    for (x, y) in [(1.5f64, -0.25f64), (-33.0, 4.0), (0.125, 0.5), (19.0, 19.0)] {
        let v = units(x, y);
        let r = govern_velocity(STANDARD, v);
        let length = (x * x + y * y).sqrt();
        let wanted = length.clamp(7.0, 20.0);
        let ideal_x = x / length * wanted;
        let ideal_y = y / length * wanted;
        assert!((r.x as f64 / UNIT as f64 - ideal_x).abs() < 2e-6, "{v:?} -> {r:?}");
        assert!((r.y as f64 / UNIT as f64 - ideal_y).abs() < 2e-6, "{v:?} -> {r:?}");
    }
}

#[test]
fn narrow_band_can_be_missed_by_rounding() {
    // A band one unit wide has no room for two rounded components.
    let policy = SpeedPolicy::Range { min: 99, max: 100 };
    let r = govern_velocity(policy, Vec2 { x: 1000, y: 1000 });
    assert_eq!(r, Vec2 { x: 70, y: 70 });
    assert!(speed_squared(r) < square(99));
}

#[test]
fn ball_keeps_its_place_when_its_speed_is_governed() {
    let mut ball = Ball { position: units(1.0, -2.0), velocity: units(30.0, 40.0) };
    maintain_ball_velocity(&mut ball);
    assert_eq!(ball.position, units(1.0, -2.0));
    assert_eq!(ball.velocity, units(12.0, 16.0));
    maintain_ball_velocity(&mut ball);
    assert_eq!(ball.velocity, units(12.0, 16.0));

    let mut still = Ball { position: units(0.0, 0.0), velocity: units(0.0, 0.0) };
    maintain_ball_velocity(&mut still);
    assert_eq!(still.velocity, units(0.0, 0.0));
}
