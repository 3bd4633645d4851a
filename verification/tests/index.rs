use particle_sim::math::vector::Vector2d;
use particle_sim::simulation::index::{Placed, Region, RegionError, SpatialIndex};
use particle_sim::simulation::particle::{Particle, ParticleVariant};

fn grain(x: i64, y: i64) -> Particle {
    Particle::at_rest(Vector2d::new(x, y), [1, 2, 3, 4], ParticleVariant::Wood, 0)
}

fn region(x: u64, y: u64, width: u64, height: u64) -> Region {
    Region::new(x, y, width, height)
}

fn heights(index: &SpatialIndex) -> Vec<i64> {
    let mut found: Vec<i64> = index.entries().iter().map(|entry| entry.1.particle.position_current.y).collect();
    found.sort();
    found
}

#[test]
fn region_is_valid_unless_empty_or_too_far() {
    assert!(region(0, 0, 1, 1).is_valid());
    assert!(region(u64::MAX - 1, 5, 1, u64::MAX - 5).is_valid());
    assert!(!region(0, 0, 0, 1).is_valid());
    assert!(!region(0, 0, 1, 0).is_valid());
    assert!(!region(u64::MAX, 0, 1, 1).is_valid());
    assert!(!region(0, 2, 1, u64::MAX - 1).is_valid());
    assert_eq!(region(1, 2, 3, 4), Region { x: 1, y: 2, width: 3, height: 4 });
}

#[test]
fn new_index_is_empty() {
    let index = SpatialIndex::new(4);
    assert_eq!(index.len(), 0);
    assert!(index.entries().is_empty());
}

#[test]
fn insert_gives_every_entry_a_slot_of_its_own() {
    let mut index = SpatialIndex::new(4);
    let first = index.insert(region(3, 3, 1, 1), grain(0, 10)).unwrap();
    let second = index.insert(region(3, 3, 1, 1), grain(0, 20)).unwrap();
    let third = index.insert(region(0, 0, 16, 16), grain(0, 30)).unwrap();
    assert_ne!(first, second);
    assert_ne!(first, third);
    assert_ne!(second, third);
    assert_eq!(index.len(), 3);
    let mut entries = index.entries();
    entries.sort_by_key(|entry| entry.1.particle.position_current.y);
    assert_eq!(entries[0], (first, Placed { region: region(3, 3, 1, 1), particle: grain(0, 10) }));
    assert_eq!(entries[1], (second, Placed { region: region(3, 3, 1, 1), particle: grain(0, 20) }));
    assert_eq!(entries[2], (third, Placed { region: region(0, 0, 16, 16), particle: grain(0, 30) }));
}

#[test]
fn insert_refuses_a_malformed_region() {
    let mut index = SpatialIndex::new(4);
    assert_eq!(index.insert(region(1, 1, 0, 1), grain(0, 0)), Err(RegionError::Malformed));
    assert_eq!(index.insert(region(1, 1, 1, 0), grain(0, 0)), Err(RegionError::Malformed));
    assert_eq!(index.insert(region(u64::MAX, 1, 1, 1), grain(0, 0)), Err(RegionError::Malformed));
    assert_eq!(index.insert(region(1, u64::MAX, 1, 1), grain(0, 0)), Err(RegionError::Malformed));
    assert_eq!(index.len(), 0);
}

#[test]
fn insert_refuses_a_region_outside_the_extent() {
    let mut index = SpatialIndex::new(4);
    assert_eq!(index.insert(region(16, 0, 1, 1), grain(0, 0)), Err(RegionError::OutOfBounds));
    assert_eq!(index.insert(region(0, 16, 1, 1), grain(0, 0)), Err(RegionError::OutOfBounds));
    assert_eq!(index.insert(region(15, 15, 2, 1), grain(0, 0)), Err(RegionError::OutOfBounds));
    assert_eq!(index.insert(region(0, 0, 17, 17), grain(0, 0)), Err(RegionError::OutOfBounds));
    assert_eq!(index.insert(region(u64::MAX - 1, 0, 1, 1), grain(0, 0)), Err(RegionError::OutOfBounds));
    assert_eq!(index.len(), 0);
    assert!(index.insert(region(15, 15, 1, 1), grain(0, 0)).is_ok());
    assert!(index.insert(region(0, 0, 16, 16), grain(0, 0)).is_ok());
    assert_eq!(index.len(), 2);
}

#[test]
fn depth_sets_the_extent() {
    let mut point = SpatialIndex::new(0);
    assert!(point.insert(region(0, 0, 1, 1), grain(0, 0)).is_ok());
    assert_eq!(point.insert(region(1, 0, 1, 1), grain(0, 0)), Err(RegionError::OutOfBounds));
    let mut wide = SpatialIndex::new(20);
    assert!(wide.insert(region(1_048_575, 1_048_575, 1, 1), grain(0, 0)).is_ok());
    assert_eq!(wide.insert(region(1_048_576, 0, 1, 1), grain(0, 0)), Err(RegionError::OutOfBounds));
}

#[test]
fn cull_removes_what_has_reached_the_bound() {
    let mut index = SpatialIndex::new(4);
    for y in [5, 99, 100, 101, 7_000] {
        index.insert(region(2, 2, 1, 1), grain(0, y)).unwrap();
    }
    index.cull(100);
    assert_eq!(heights(&index), vec![5, 99]);
    index.cull(100);
    assert_eq!(heights(&index), vec![5, 99]);
    index.cull(i64::MIN);
    assert_eq!(index.len(), 0);
}

#[test]
fn step_in_moves_only_what_meets_the_area() {
    let mut index = SpatialIndex::new(4);
    index.insert(region(0, 0, 1, 1), grain(0, 10)).unwrap();
    index.insert(region(3, 3, 2, 2), grain(0, 20)).unwrap();
    index.insert(region(4, 4, 1, 1), grain(0, 30)).unwrap();
    index.insert(region(9, 0, 1, 1), grain(0, 40)).unwrap();
    index.insert(region(0, 0, 16, 16), grain(0, 50)).unwrap();
    index.step_in(region(0, 0, 4, 4), false, 1_000, 3);
    assert_eq!(heights(&index), vec![19, 29, 30, 40, 59]);
    index.step_in(region(4, 4, 1, 1), false, 1_000, 3);
    assert_eq!(heights(&index), vec![19, 39, 40, 47, 77]);
}

#[test]
fn step_in_applies_the_barrier() {
    let mut index = SpatialIndex::new(4);
    index.insert(region(1, 1, 1, 1), grain(0, 500)).unwrap();
    index.step_in(region(0, 0, 16, 16), true, 100, 3);
    assert_eq!(heights(&index), vec![100]);
    let mut open = SpatialIndex::new(4);
    open.insert(region(1, 1, 1, 1), grain(0, 500)).unwrap();
    open.step_in(region(0, 0, 16, 16), false, 100, 3);
    assert_eq!(heights(&open), vec![500]);
}

#[test]
fn reset_removes_every_entry() {
    let mut index = SpatialIndex::new(4);
    index.insert(region(1, 1, 1, 1), grain(0, 1)).unwrap();
    index.insert(region(2, 2, 3, 3), grain(0, 2)).unwrap();
    index.reset();
    assert_eq!(index.len(), 0);
    assert!(index.entries().is_empty());
    index.reset();
    assert_eq!(index.len(), 0);
    assert!(index.insert(region(1, 1, 1, 1), grain(0, 3)).is_ok());
    assert_eq!(heights(&index), vec![3]);
}
