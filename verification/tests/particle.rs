use particle_sim::math::vector::{saturate_i128, Vector2d};
use particle_sim::simulation::particle::{next_coordinate, Particle, ParticleVariant};
use particle_sim::GRAVITY;

const GREY: [u8; 4] = [128, 128, 128, 255];

fn moving(current: (i64, i64), old: (i64, i64), acceleration: (i64, i64)) -> Particle {
    Particle::new(
        GREY,
        Vector2d::new(acceleration.0, acceleration.1),
        Vector2d::new(current.0, current.1),
        Vector2d::new(old.0, old.1),
        ParticleVariant::Deuterium,
        7,
    )
}

#[test]
fn new_keeps_every_part() {
    let particle = moving((1, 2), (3, 4), (5, 6));
    assert_eq!(particle.position_current, Vector2d { x: 1, y: 2 });
    assert_eq!(particle.position_old, Vector2d { x: 3, y: 4 });
    assert_eq!(particle.acceleration, Vector2d { x: 5, y: 6 });
    assert_eq!(particle.color, GREY);
    assert_eq!(particle.variant, ParticleVariant::Deuterium);
    assert_eq!(particle.created, 7);
}

#[test]
fn particle_at_rest_has_no_velocity() {
    let particle = Particle::at_rest(Vector2d::new(40, -50), GREY, ParticleVariant::Plutonium, 3);
    assert_eq!(particle.position_current, particle.position_old);
    assert_eq!(particle.velocity(), Vector2d { x: 0, y: 0 });
    assert_eq!(particle.acceleration, Vector2d { x: 0, y: GRAVITY });
    assert_eq!(particle.created, 3);
}

#[test]
fn velocity_is_the_difference_of_the_positions() {
    let particle = moving((10, 20), (7, 25), (0, 0));
    assert_eq!(particle.velocity(), Vector2d { x: 3, y: -5 });
    let far = moving((i64::MAX, i64::MIN), (-1, 1), (0, 0));
    assert_eq!(far.velocity(), Vector2d { x: i64::MAX, y: i64::MIN });
}

#[test]
fn next_coordinate_follows_the_verlet_formula() {
    assert_eq!(next_coordinate(100, 90, 3, 5), 100 + 10 + 3 * 25);
    assert_eq!(next_coordinate(0, 0, -981, 1), -981);
    assert_eq!(next_coordinate(-981, 0, -981, 1), 3 * -981);
    assert_eq!(next_coordinate(5, 5, 7, 0), 5);
    assert_eq!(next_coordinate(-4, 6, 0, 1000), -14);
}

#[test]
fn next_coordinate_saturates() {
    assert_eq!(next_coordinate(i64::MAX, i64::MAX - 1, 0, 0), i64::MAX);
    assert_eq!(next_coordinate(i64::MAX, 0, i64::MAX, u32::MAX), i64::MAX);
    assert_eq!(next_coordinate(i64::MIN, 0, i64::MIN, u32::MAX), i64::MIN);
    assert_eq!(next_coordinate(i64::MIN, i64::MAX, 1, 1), i64::MIN);
    assert_eq!(next_coordinate(i64::MIN, i64::MIN, 1, u32::MAX), 9_223_372_028_264_841_217);
    assert_eq!(saturate_i128(i128::MAX), i64::MAX);
    assert_eq!(saturate_i128(i128::MIN), i64::MIN);
    assert_eq!(saturate_i128(-17), -17);
}

#[test]
fn integrate_uses_up_the_acceleration() {
    let mut particle = moving((100, 200), (90, 210), (2, -3));
    particle.integrate(10);
    assert_eq!(particle.position_current, Vector2d { x: 100 + 10 + 200, y: 200 - 10 - 300 });
    assert_eq!(particle.position_old, Vector2d { x: 100, y: 200 });
    assert_eq!(particle.acceleration, Vector2d { x: 0, y: GRAVITY });
    assert_eq!(particle.color, GREY);
    assert_eq!(particle.created, 7);
    assert_eq!(particle.variant, ParticleVariant::Deuterium);
}

#[test]
fn two_steps_from_rest_fall_three_times_as_far_as_one() {
    let mut particle = Particle::at_rest(Vector2d::new(0, 0), GREY, ParticleVariant::Sand, 0);
    particle.integrate(100);
    assert_eq!(particle.position_current, Vector2d { x: 0, y: GRAVITY * 10_000 });
    particle.integrate(100);
    assert_eq!(particle.position_current, Vector2d { x: 0, y: 3 * GRAVITY * 10_000 });
    particle.integrate(100);
    assert_eq!(particle.position_current, Vector2d { x: 0, y: 6 * GRAVITY * 10_000 });
}

#[test]
fn beyond_starts_at_the_bound() {
    assert!(!moving((0, 99), (0, 0), (0, 0)).is_beyond(100));
    assert!(moving((0, 100), (0, 0), (0, 0)).is_beyond(100));
    assert!(moving((0, 101), (0, 0), (0, 0)).is_beyond(100));
}

#[test]
fn rest_on_the_bound_stops_the_fall_only() {
    let mut particle = moving((50, 130), (40, 90), (6, 9));
    particle.rest_on(100);
    assert_eq!(particle.position_current, Vector2d { x: 50, y: 100 });
    assert_eq!(particle.position_old, Vector2d { x: 40, y: 100 });
    assert_eq!(particle.acceleration, Vector2d { x: 6, y: 0 });
}

#[test]
fn step_with_barriers_rests_then_integrates() {
    let mut particle = moving((50, 130), (40, 90), (6, 9));
    particle.step(true, 100, 2);
    assert_eq!(particle.position_current, Vector2d { x: 50 + 10 + 24, y: 100 });
    assert_eq!(particle.position_old, Vector2d { x: 50, y: 100 });
    assert_eq!(particle.acceleration, Vector2d { x: 0, y: GRAVITY });
}

#[test]
fn step_without_barriers_leaves_an_escaped_particle_alone() {
    let mut particle = moving((50, 130), (40, 90), (6, 9));
    let before = particle;
    particle.step(false, 100, 2);
    assert_eq!(particle, before);
}

#[test]
fn step_above_the_bound_integrates_whatever_the_barriers() {
    let mut with = moving((50, 99), (40, 90), (6, 9));
    let mut without = with;
    with.step(true, 100, 2);
    without.step(false, 100, 2);
    assert_eq!(with, without);
    assert_eq!(with.position_current, Vector2d { x: 84, y: 99 + 9 + 36 });
}

#[test]
fn vectors_add_and_subtract_with_saturation() {
    let a = Vector2d::new(3, -4);
    let b = Vector2d::new(10, 20);
    assert_eq!(a + b, Vector2d { x: 13, y: 16 });
    assert_eq!(a - b, Vector2d { x: -7, y: -24 });
    let top = Vector2d::new(i64::MAX, i64::MIN);
    assert_eq!(top + Vector2d::new(1, -1), top);
    assert_eq!(top - Vector2d::new(-1, 1), top);
}

#[test]
fn dot_product_is_exact() {
    assert_eq!(Vector2d::new(3, -4).dot(Vector2d::new(10, 20)), -50);
    assert_eq!(Vector2d::new(0, 0).dot(Vector2d::new(i64::MAX, i64::MIN)), 0);
    let corner = Vector2d::new(i64::MIN, i64::MIN);
    assert_eq!(Vector2d::new(i64::MAX, i64::MAX).dot(corner), 2 * (i64::MAX as i128) * (i64::MIN as i128));
    assert_eq!(Vector2d::new(i64::MIN, 0).dot(corner), 1i128 << 126);
    assert_eq!(corner.dot(corner), i128::MAX);
}

#[test]
fn vector_is_stretched_with_saturation() {
    assert_eq!(Vector2d::new(3, -4) * 5, Vector2d { x: 15, y: -20 });
    assert_eq!(Vector2d::new(3, -4) * 0, Vector2d { x: 0, y: 0 });
    assert_eq!(Vector2d::new(i64::MAX, i64::MIN) * 2, Vector2d { x: i64::MAX, y: i64::MIN });
    assert_eq!(Vector2d::new(i64::MAX, i64::MIN) * -1, Vector2d { x: -i64::MAX, y: i64::MAX });
}
