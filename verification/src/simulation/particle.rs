//! The particle record, its integrator and the boundary policy.

use vstd::prelude::*;
use crate::math::vector::{saturate, saturate_i128, Vector2d};
use crate::GRAVITY;

verus! {

/// The material a particle is made of.  A classification only: no rule of
/// the engine depends on it.
#[derive(Clone, Copy, Debug, PartialEq, Eq, Structural)]
pub enum ParticleVariant {
    Wood,
    Stone,
    Uranium,
    Plutonium,
    Deuterium,
    C4,
    Sand,
}

/// One particle.  Velocity is not stored: it is the difference between the
/// current and the previous position.
#[derive(Clone, Copy, Debug, PartialEq, Eq)]
pub struct Particle {
    pub position_current: Vector2d,
    pub position_old: Vector2d,
    pub acceleration: Vector2d,
    pub color: [u8; 4],
    pub created: u64,
    pub variant: ParticleVariant,
}

/// The coordinate that follows `current` after `dt` milliseconds, given the
/// coordinate before it and the acceleration along the same axis.
pub open spec fn verlet_next(current: i64, old: i64, acceleration: i64, dt: u32) -> i64 {
    saturate(current + (current - old) + acceleration * dt * dt)
}

/// The acceleration every particle is left with after a step.
pub open spec fn gravity() -> Vector2d {
    Vector2d { x: 0, y: GRAVITY }
}

/// One coordinate of the Verlet step: the new position is the current one,
/// plus what the particle moved in the step before, plus the acceleration
/// times the square of the time.  The result saturates.
pub fn next_coordinate(current: i64, old: i64, acceleration: i64, dt: u32) -> (next: i64)
    ensures
        next == verlet_next(current, old, acceleration, dt),
{
    let d: i128 = dt as i128;
    let a: i128 = acceleration as i128;
    assert(-0x8000_0000_0000_0000 * 0xffff_ffff <= a * d <= 0x8000_0000_0000_0000 * 0xffff_ffff)
        by (nonlinear_arith)
        requires
            -0x8000_0000_0000_0000 <= a < 0x8000_0000_0000_0000,
            0 <= d <= 0xffff_ffff,
    ;
    let ad: i128 = a * d;
    assert(-0x8000_0000_0000_0000 * 0xffff_ffff * 0xffff_ffff <= ad * d <= 0x8000_0000_0000_0000
        * 0xffff_ffff * 0xffff_ffff) by (nonlinear_arith)
        requires
            -0x8000_0000_0000_0000 * 0xffff_ffff <= ad <= 0x8000_0000_0000_0000 * 0xffff_ffff,
            0 <= d <= 0xffff_ffff,
    ;
    let add: i128 = ad * d;
    assert(add == acceleration * dt * dt) by (nonlinear_arith)
        requires
            add == ad * d,
            ad == a * d,
            a == acceleration,
            d == dt,
    ;
    let total: i128 = current as i128 + (current as i128 - old as i128) + add;
    saturate_i128(total)
}

impl Particle {
    /// Builds a particle from its parts.
    pub fn new(
        color: [u8; 4],
        acceleration: Vector2d,
        position_current: Vector2d,
        position_old: Vector2d,
        variant: ParticleVariant,
        created: u64,
    ) -> (particle: Particle)
        ensures
            particle == (Particle { position_current, position_old, acceleration, color, created, variant }),
    {
        Particle { position_current, position_old, acceleration, color, created, variant }
    }

    /// A particle that has just come into being at `position`: it has not
    /// moved yet, and gravity is the only force on it.
    pub open spec fn resting(
        position: Vector2d,
        color: [u8; 4],
        variant: ParticleVariant,
        created: u64,
    ) -> Particle {
        Particle {
            position_current: position,
            position_old: position,
            acceleration: gravity(),
            color,
            created,
            variant,
        }
    }

    /// Creates a particle at rest at `position`.
    pub fn at_rest(position: Vector2d, color: [u8; 4], variant: ParticleVariant, created: u64) -> (particle:
        Particle)
        ensures
            particle == Particle::resting(position, color, variant, created),
    {
        Particle {
            position_current: position,
            position_old: position,
            acceleration: Vector2d { x: 0, y: GRAVITY },
            color,
            created,
            variant,
        }
    }

    /// The displacement of the last step.
    pub open spec fn spec_velocity(self) -> Vector2d {
        Vector2d {
            x: saturate(self.position_current.x - self.position_old.x),
            y: saturate(self.position_current.y - self.position_old.y),
        }
    }

    /// The velocity of the particle, derived from its two positions.
    pub fn velocity(&self) -> (v: Vector2d)
        ensures
            v == self.spec_velocity(),
    {
        self.position_current - self.position_old
    }

    /// The particle after one integration step of `dt` milliseconds.
    pub open spec fn integrated(self, dt: u32) -> Particle {
        Particle {
            position_current: Vector2d {
                x: verlet_next(self.position_current.x, self.position_old.x, self.acceleration.x, dt),
                y: verlet_next(self.position_current.y, self.position_old.y, self.acceleration.y, dt),
            },
            position_old: self.position_current,
            acceleration: gravity(),
            ..self
        }
    }

    /// Advances the particle by `dt` milliseconds.  The acceleration that
    /// had been accumulated is used up, and gravity takes its place.
    pub fn integrate(&mut self, dt: u32)
        ensures
            *final(self) == old(self).integrated(dt),
    {
        let x = next_coordinate(self.position_current.x, self.position_old.x, self.acceleration.x, dt);
        let y = next_coordinate(self.position_current.y, self.position_old.y, self.acceleration.y, dt);
        self.position_old = self.position_current;
        self.position_current = Vector2d { x, y };
        self.acceleration = Vector2d { x: 0, y: GRAVITY };
    }

    /// Whether the particle has reached or passed the lower bound.
    pub open spec fn beyond(self, bound: i64) -> bool {
        self.position_current.y >= bound
    }

    /// Whether the particle has reached or passed the lower bound.
    pub fn is_beyond(&self, bound: i64) -> (b: bool)
        ensures
            b == self.beyond(bound),
    {
        self.position_current.y >= bound
    }

    /// The particle laid to rest on the lower bound: it keeps its
    /// horizontal motion, and nothing moves it vertically.
    pub open spec fn rested(self, bound: i64) -> Particle {
        Particle {
            position_current: Vector2d { x: self.position_current.x, y: bound },
            position_old: Vector2d { x: self.position_old.x, y: bound },
            acceleration: Vector2d { x: self.acceleration.x, y: 0 },
            ..self
        }
    }

    /// Lays the particle to rest on the lower bound.
    pub fn rest_on(&mut self, bound: i64)
        ensures
            *final(self) == old(self).rested(bound),
    {
        self.position_current = Vector2d { x: self.position_current.x, y: bound };
        self.position_old = Vector2d { x: self.position_old.x, y: bound };
        self.acceleration = Vector2d { x: self.acceleration.x, y: 0 };
    }

    /// The particle after one tick.  A particle at or beyond the lower bound
    /// is laid to rest on it where barriers are enabled, and left as it is
    /// where they are not; then, unless it was left as it is, it is
    /// integrated.
    pub open spec fn stepped(self, barriers_on: bool, bound: i64, dt: u32) -> Particle {
        if self.beyond(bound) {
            if barriers_on {
                self.rested(bound).integrated(dt)
            } else {
                self
            }
        } else {
            self.integrated(dt)
        }
    }

    /// Applies the boundary policy and then the integrator.
    pub fn step(&mut self, barriers_on: bool, bound: i64, dt: u32)
        ensures
            *final(self) == old(self).stepped(barriers_on, bound, dt),
    {
        if self.is_beyond(bound) {
            if barriers_on {
                self.rest_on(bound);
                self.integrate(dt);
            }
        } else {
            self.integrate(dt);
        }
    }
}

/// A particle that has just been created has not moved: its two positions
/// are the position it was created at, and its velocity is zero.
pub proof fn lemma_resting_particle_is_still(
    position: Vector2d,
    color: [u8; 4],
    variant: ParticleVariant,
    created: u64,
)
    ensures
        Particle::resting(position, color, variant, created).position_current == position,
        Particle::resting(position, color, variant, created).position_old == position,
        Particle::resting(position, color, variant, created).spec_velocity() == (Vector2d { x: 0, y: 0 }),
{
}

/// The velocity gained in one step carries over to the next.  A particle
/// that starts at rest under gravity alone has fallen by `g * dt^2` after
/// one step and by three times as much, not twice, after two; sideways it
/// has not moved.  This holds as long as the coordinate does not saturate.
pub proof fn lemma_two_steps_from_rest(particle: Particle, dt: u32)
    requires
        particle.position_old == particle.position_current,
        particle.acceleration == gravity(),
        i64::MIN <= particle.position_current.y + 3 * (GRAVITY * dt * dt) <= i64::MAX,
    ensures
        particle.integrated(dt).position_current == (Vector2d {
            x: particle.position_current.x,
            y: (particle.position_current.y + GRAVITY * dt * dt) as i64,
        }),
        particle.integrated(dt).integrated(dt).position_current == (Vector2d {
            x: particle.position_current.x,
            y: (particle.position_current.y + 3 * (GRAVITY * dt * dt)) as i64,
        }),
{
}

/// Integration moves nothing but the kinematic state: colour, stamp and
/// material stay, the position before the step becomes the previous
/// position, and the acceleration is gravity alone.
pub proof fn lemma_integration_keeps_identity(particle: Particle, dt: u32)
    ensures
        particle.integrated(dt).color == particle.color,
        particle.integrated(dt).created == particle.created,
        particle.integrated(dt).variant == particle.variant,
        particle.integrated(dt).position_old == particle.position_current,
        particle.integrated(dt).acceleration == gravity(),
{
}

/// With barriers enabled, a particle that has reached the lower bound lies
/// exactly on it after the tick, whatever its speed was.
pub proof fn lemma_barrier_stops_particle(particle: Particle, bound: i64, dt: u32)
    requires
        particle.beyond(bound),
    ensures
        particle.stepped(true, bound, dt).position_current.y == bound,
        particle.stepped(true, bound, dt).position_old.y == bound,
{
}

} // verus!
