use particle_sim::config::Config;
use particle_sim::math::vector::Vector2d;
use particle_sim::simulation::particle::{Particle, ParticleVariant};
use particle_sim::simulation::world::{color_of, draw_particles, World};
use particle_sim::utils::graphics::Sprite;
use particle_sim::{GRAVITY, LOWER_BOUND, PALETTE_LEN};

const RED: [u8; 4] = [200, 10, 20, 255];

fn barriers(on: bool) -> Config {
    Config { barriers_on: on }
}

fn only_particle(world: &World) -> Particle {
    let particles = world.particles();
    assert_eq!(particles.len(), 1);
    particles[0]
}

#[test]
fn new_world_is_empty() {
    let world = World::new(Config::new());
    assert_eq!(world.len(), 0);
    assert!(world.particles().is_empty());
}

#[test]
fn added_particle_is_at_rest_where_it_was_added() {
    let mut world = World::new(Config::new());
    assert!(world.add_particle_colored(12_345, 67_890, ParticleVariant::Uranium, RED));
    let particle = only_particle(&world);
    assert_eq!(particle.position_current, Vector2d { x: 12_345, y: 67_890 });
    assert_eq!(particle.position_old, Vector2d { x: 12_345, y: 67_890 });
    assert_eq!(particle.velocity(), Vector2d { x: 0, y: 0 });
    assert_eq!(particle.acceleration, Vector2d { x: 0, y: GRAVITY });
    assert_eq!(particle.color, RED);
    assert_eq!(particle.variant, ParticleVariant::Uranium);
    assert_eq!(particle.created, 0);
}

#[test]
fn particles_are_stamped_in_the_order_they_are_added() {
    let mut world = World::new(Config::new());
    assert!(world.add_particle_colored(1_000, 1_000, ParticleVariant::Sand, RED));
    assert!(world.add_particle_colored(2_000, 1_000, ParticleVariant::Wood, RED));
    assert!(!world.add_particle_colored(-5, 1_000, ParticleVariant::Wood, RED));
    assert!(world.add_particle_colored(3_000, 1_000, ParticleVariant::C4, RED));
    let mut stamps: Vec<(i64, u64)> = world.particles().iter().map(|p| (p.position_current.x, p.created)).collect();
    stamps.sort();
    assert_eq!(stamps, vec![(1_000, 0), (2_000, 1), (3_000, 2)]);
}

#[test]
fn random_colour_comes_from_the_palette() {
    let mut world = World::new(Config::new());
    for _ in 0..50 {
        assert!(world.add_particle(5_000, 5_000, ParticleVariant::Stone));
    }
    assert_eq!(world.len(), 50);
    let palette: Vec<[u8; 4]> = (0..PALETTE_LEN).map(color_of).collect();
    for particle in world.particles() {
        assert!(palette.contains(&particle.color));
        assert_eq!(particle.variant, ParticleVariant::Stone);
        assert_eq!(particle.position_current, Vector2d { x: 5_000, y: 5_000 });
    }
}

#[test]
fn palette_has_seven_opaque_colours() {
    assert_eq!(PALETTE_LEN, 7);
    assert_eq!(color_of(0), [139, 90, 43, 255]);
    assert_eq!(color_of(1), [128, 128, 128, 255]);
    assert_eq!(color_of(6), [237, 201, 175, 255]);
    for tint in 0..PALETTE_LEN {
        assert_eq!(color_of(tint)[3], 255);
    }
}

#[test]
fn spawn_outside_the_extent_is_refused() {
    let mut world = World::new(Config::new());
    assert!(world.add_particle_colored(10_000, 10_000, ParticleVariant::Sand, RED));
    assert_eq!(world.len(), 1);
    assert!(!world.add_particle_colored(-1, 10_000, ParticleVariant::Sand, RED));
    assert!(!world.add_particle_colored(10_000, -1, ParticleVariant::Sand, RED));
    assert!(!world.add_particle_colored(4_096_000, 10_000, ParticleVariant::Sand, RED));
    assert!(!world.add_particle_colored(10_000, 4_096_000, ParticleVariant::Sand, RED));
    assert!(!world.add_particle_colored(i64::MAX, i64::MIN, ParticleVariant::Sand, RED));
    assert!(!world.add_particle(-1, -1, ParticleVariant::Sand));
    assert_eq!(world.len(), 1);
    assert_eq!(only_particle(&world).position_current, Vector2d { x: 10_000, y: 10_000 });
}

#[test]
fn spawn_on_the_last_cell_of_the_extent_is_accepted() {
    let mut world = World::new(Config::new());
    assert!(world.add_particle_colored(4_095_999, 4_095_999, ParticleVariant::Sand, RED));
    assert!(world.add_particle_colored(0, 0, ParticleVariant::Sand, RED));
    assert_eq!(world.len(), 2);
}

#[test]
fn several_particles_can_share_a_cell() {
    let mut world = World::new(Config::new());
    assert!(world.add_particle_colored(7_100, 7_100, ParticleVariant::Sand, RED));
    assert!(world.add_particle_colored(7_200, 7_900, ParticleVariant::Sand, RED));
    assert!(world.add_particle_colored(7_100, 7_100, ParticleVariant::Sand, RED));
    assert_eq!(world.len(), 3);
    assert_eq!(world.particles().len(), 3);
}

#[test]
fn velocity_carries_over_from_the_first_step_to_the_second() {
    let mut world = World::new(barriers(false));
    assert!(world.add_particle_colored(0, 0, ParticleVariant::Sand, RED));
    let dt: u32 = 4;
    let fall = GRAVITY * 16;
    world.update(dt);
    let first = only_particle(&world);
    assert_eq!(first.position_current, Vector2d { x: 0, y: fall });
    assert_eq!(first.position_old, Vector2d { x: 0, y: 0 });
    world.update(dt);
    let second = only_particle(&world);
    assert_eq!(second.position_current, Vector2d { x: 0, y: 3 * fall });
    assert_ne!(second.position_current.y, 2 * fall);
    assert_eq!(second.position_old, Vector2d { x: 0, y: fall });
    assert_eq!(second.acceleration, Vector2d { x: 0, y: GRAVITY });
}

#[test]
fn a_tick_of_no_time_moves_only_by_the_velocity() {
    let mut world = World::new(barriers(false));
    assert!(world.add_particle_colored(9_000, 9_000, ParticleVariant::Sand, RED));
    world.update(0);
    assert_eq!(only_particle(&world).position_current, Vector2d { x: 9_000, y: 9_000 });
    world.update(10);
    assert_eq!(only_particle(&world).position_current, Vector2d { x: 9_000, y: 9_100 });
    world.update(0);
    assert_eq!(only_particle(&world).position_current, Vector2d { x: 9_000, y: 9_200 });
}

#[test]
fn barrier_holds_a_particle_on_the_lower_bound() {
    let mut world = World::new(barriers(true));
    assert!(world.add_particle_colored(1_000, 479_000, ParticleVariant::Sand, RED));
    for _ in 0..10 {
        world.update(4);
    }
    assert_eq!(only_particle(&world).position_current.y, 479_880);
    world.update(4);
    assert_eq!(only_particle(&world).position_current.y, 480_056);
    for _ in 0..20 {
        world.update(4);
        let particle = only_particle(&world);
        assert_eq!(particle.position_current.y, LOWER_BOUND);
        assert_eq!(particle.position_old.y, LOWER_BOUND);
        assert_eq!(particle.position_current.x, 1_000);
    }
    assert_eq!(world.len(), 1);
}

#[test]
fn barrier_keeps_the_horizontal_motion() {
    let mut world = World::new(barriers(true));
    assert!(world.add_particle_colored(1_000, 479_000, ParticleVariant::Sand, RED));
    world.update(4);
    let mut particle = only_particle(&world);
    particle.position_current = Vector2d { x: 1_030, y: 500_000 };
    particle.position_old = Vector2d { x: 1_000, y: 400_000 };
    particle.step(true, LOWER_BOUND, 4);
    assert_eq!(particle.position_current, Vector2d { x: 1_060, y: LOWER_BOUND });
    assert_eq!(particle.position_old, Vector2d { x: 1_030, y: LOWER_BOUND });
}

#[test]
fn escaped_particle_is_gone_after_the_next_tick() {
    let mut world = World::new(barriers(false));
    assert!(world.add_particle_colored(1_000, 479_000, ParticleVariant::Sand, RED));
    assert!(world.add_particle_colored(2_000, 100_000, ParticleVariant::Sand, RED));
    for _ in 0..11 {
        world.update(4);
    }
    assert_eq!(world.len(), 2);
    assert!(world.particles().iter().any(|p| p.position_current == Vector2d { x: 1_000, y: 480_056 }));
    world.update(4);
    assert_eq!(world.len(), 1);
    let left = only_particle(&world);
    assert_eq!(left.position_current.x, 2_000);
    assert!(left.position_current.y < LOWER_BOUND);
}

#[test]
fn particle_added_below_the_bound_is_culled_without_barriers() {
    let mut world = World::new(barriers(false));
    assert!(world.add_particle_colored(1_000, 480_000, ParticleVariant::Sand, RED));
    assert!(world.add_particle_colored(1_000, 479_999, ParticleVariant::Sand, RED));
    assert_eq!(world.len(), 2);
    world.update(1);
    assert_eq!(world.len(), 1);
    assert_eq!(only_particle(&world).position_current, Vector2d { x: 1_000, y: 480_000 });
}

#[test]
fn every_particle_is_stepped_wherever_it_was_placed() {
    let mut world = World::new(barriers(true));
    assert!(world.add_particle_colored(700_000, 100_000, ParticleVariant::Sand, RED));
    assert!(world.add_particle_colored(4_095_999, 0, ParticleVariant::Sand, RED));
    assert!(world.add_particle_colored(639_999, 100_000, ParticleVariant::Sand, RED));
    world.update(4);
    let mut positions: Vec<(i64, i64)> =
        world.particles().iter().map(|p| (p.position_current.x, p.position_current.y)).collect();
    positions.sort();
    assert_eq!(positions, vec![(639_999, 100_016), (700_000, 100_016), (4_095_999, 16)]);
}

#[test]
fn barrier_lays_a_particle_added_below_the_bound_on_it() {
    let mut world = World::new(barriers(true));
    assert!(world.add_particle_colored(0, 500_000, ParticleVariant::Sand, RED));
    assert!(world.add_particle_colored(100_000, 900_000, ParticleVariant::Sand, RED));
    assert!(world.add_particle_colored(3_000_000, 4_095_999, ParticleVariant::Sand, RED));
    for _ in 0..3 {
        world.update(1);
        assert_eq!(world.len(), 3);
        for particle in world.particles() {
            assert_eq!(particle.position_current.y, LOWER_BOUND);
            assert_eq!(particle.position_old.y, LOWER_BOUND);
        }
    }
    let mut columns: Vec<i64> = world.particles().iter().map(|p| p.position_current.x).collect();
    columns.sort();
    assert_eq!(columns, vec![0, 100_000, 3_000_000]);
}

#[test]
fn no_particle_is_below_the_bound_after_a_tick_with_barriers() {
    let mut world = World::new(barriers(true));
    for (x, y) in [(0, 0), (5_000, 479_999), (5_000, 480_000), (900_000, 480_001), (1_000, 2_000_000)] {
        assert!(world.add_particle_colored(x, y, ParticleVariant::Sand, RED));
    }
    world.update(0);
    assert_eq!(world.len(), 5);
    for particle in world.particles() {
        assert!(particle.position_current.y <= LOWER_BOUND);
    }
}

#[test]
fn clear_twice_leaves_the_world_empty_both_times() {
    let mut world = World::new(Config::new());
    assert!(world.add_particle_colored(1_000, 1_000, ParticleVariant::Sand, RED));
    assert!(world.add_particle_colored(2_000, 2_000, ParticleVariant::Sand, RED));
    world.clear_particles();
    assert_eq!(world.len(), 0);
    assert!(world.particles().is_empty());
    world.clear_particles();
    assert_eq!(world.len(), 0);
    assert!(world.particles().is_empty());
    assert!(world.add_particle_colored(3_000, 3_000, ParticleVariant::Sand, RED));
    assert_eq!(only_particle(&world).created, 2);
}

#[test]
fn update_of_an_empty_world_does_nothing() {
    let mut world = World::new(barriers(false));
    world.update(4);
    assert_eq!(world.len(), 0);
}

#[test]
fn draw_stamps_the_sprite_in_the_colour_of_the_particle() {
    let mut world = World::new(Config::new());
    assert!(world.add_particle_colored(3_500, 2_500, ParticleVariant::Sand, [10, 20, 30, 255]));
    assert!(world.add_particle_colored(700_000, 2_500, ParticleVariant::Sand, [1, 1, 1, 1]));
    let sprite = Sprite { width: 1, height: 1, pixels: vec![255; 4] };
    let mut frame = vec![0u8; 640 * 480 * 4];
    world.draw(&mut frame, &sprite);
    let offset = 2 * 640 * 4 + 3 * 4;
    assert_eq!(&frame[offset..offset + 4], &[10, 20, 30, 255]);
    let marked = frame.iter().filter(|b| **b != 0).count();
    assert_eq!(marked, 4);
}

#[test]
fn draw_particles_skips_what_is_not_shown() {
    let sprite = Sprite { width: 2, height: 1, pixels: vec![255; 8] };
    let mut frame = vec![0u8; 640 * 480 * 4];
    let shown = Particle::at_rest(Vector2d { x: -7, y: 999 }, [5, 6, 7, 8], ParticleVariant::Sand, 0);
    let below = Particle::at_rest(Vector2d { x: 0, y: 480_000 }, [9, 9, 9, 9], ParticleVariant::Sand, 1);
    let right = Particle::at_rest(Vector2d { x: 640_000, y: 0 }, [9, 9, 9, 9], ParticleVariant::Sand, 2);
    let edge = Particle::at_rest(Vector2d { x: 639_000, y: 0 }, [9, 9, 9, 9], ParticleVariant::Sand, 3);
    draw_particles(&mut frame, &sprite, &vec![shown, below, right, edge]);
    assert_eq!(&frame[0..8], &[5, 6, 7, 8, 5, 6, 7, 8]);
    assert!(frame[8..].iter().all(|b| *b == 0));
}

#[test]
fn sprite_taller_than_the_screen_is_never_drawn() {
    let mut world = World::new(Config::new());
    assert!(world.add_particle_colored(3_500, 0, ParticleVariant::Sand, [10, 20, 30, 255]));
    let mut frame = vec![0u8; 640 * 480 * 4];
    for height in [481, 100_000, usize::MAX] {
        let sprite = Sprite { width: 1, height, pixels: Vec::new() };
        world.draw(&mut frame, &sprite);
        assert!(frame.iter().all(|b| *b == 0));
    }
    let full = Sprite { width: 1, height: 480, pixels: Vec::new() };
    world.draw(&mut frame, &full);
    assert_eq!(frame.iter().filter(|b| **b != 0).count(), 480 * 4);
    assert_eq!(world.len(), 1);
}

#[test]
fn later_particles_are_drawn_over_earlier_ones() {
    let sprite = Sprite { width: 1, height: 1, pixels: vec![255; 4] };
    let mut frame = vec![0u8; 640 * 480 * 4];
    let first = Particle::at_rest(Vector2d { x: 1_000, y: 0 }, [1, 2, 3, 4], ParticleVariant::Sand, 0);
    let second = Particle::at_rest(Vector2d { x: 1_999, y: 999 }, [9, 0, 7, 0], ParticleVariant::Sand, 1);
    draw_particles(&mut frame, &sprite, &vec![first, second]);
    assert_eq!(&frame[4..8], &[9, 2, 7, 4]);
}
