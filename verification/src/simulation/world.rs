//! The simulation engine for free particles: it owns the spatial index and
//! is the only thing that creates, moves and removes particles.

use vstd::prelude::*;
use vstd::arithmetic::power2::{lemma2_to64, pow2};
use rand::Rng;
use crate::config::Config;
use crate::math::vector::Vector2d;
use crate::simulation::index::{enumerates, survivors, Entries, Placed, Region, SpatialIndex};
use crate::simulation::particle::{
    gravity, lemma_barrier_stops_particle, lemma_two_steps_from_rest, Particle, ParticleVariant,
};
use crate::utils::geometry::Point;
use crate::utils::graphics::{blit, blitted, frame_bytes, Sprite};
use crate::{GRAVITY, HEIGHT, LOWER_BOUND, PALETTE_LEN, SUBCELLS, WIDTH};

verus! {

/// Depth of the spatial index of a world.
pub const DEPTH: usize = 12;

/// Side of the square of cells that a world covers.
pub const EXTENT: i64 = 4096;

/// The colours that a new particle can be given.
pub open spec fn palette(tint: int) -> Seq<u8> {
    if tint == 0 {
        seq![139u8, 90u8, 43u8, 255u8]
    } else if tint == 1 {
        seq![128u8, 128u8, 128u8, 255u8]
    } else if tint == 2 {
        seq![80u8, 200u8, 120u8, 255u8]
    } else if tint == 3 {
        seq![180u8, 80u8, 220u8, 255u8]
    } else if tint == 4 {
        seq![80u8, 160u8, 255u8, 255u8]
    } else if tint == 5 {
        seq![230u8, 220u8, 170u8, 255u8]
    } else {
        seq![237u8, 201u8, 175u8, 255u8]
    }
}

/// The colour at position `tint` of the palette.
pub fn color_of(tint: usize) -> (color: [u8; 4])
    requires
        tint < PALETTE_LEN,
    ensures
        color@ == palette(tint as int),
{
    let colors: [[u8; 4]; 7] = [
        [139, 90, 43, 255],
        [128, 128, 128, 255],
        [80, 200, 120, 255],
        [180, 80, 220, 255],
        [80, 160, 255, 255],
        [230, 220, 170, 255],
        [237, 201, 175, 255],
    ];
    let color = colors[tint];
    color
}

/// Whether the colour is one of the palette.
pub open spec fn in_palette(color: [u8; 4]) -> bool {
    exists|tint: int| 0 <= tint < PALETTE_LEN && color@ == #[trigger] palette(tint)
}

/// `Rng::gen_range` on the generator of the current thread: some number
/// below `n`, not the same from one call to the next.
#[verifier::external_body]
fn random_below(n: usize) -> (r: usize)
    requires
        n > 0,
    ensures
        r < n,
{
    rand::thread_rng().gen_range(0..n)
}

/// Whether the position lies on a cell that the world covers.
pub open spec fn in_extent(x: i64, y: i64) -> bool {
    &&& 0 <= x < EXTENT * SUBCELLS
    &&& 0 <= y < EXTENT * SUBCELLS
}

/// The cell that a position inside the extent lies on.
pub open spec fn cell_of(x: i64, y: i64) -> Region {
    Region::cell((x / SUBCELLS) as u64, (y / SUBCELLS) as u64)
}

/// The entries after every particle was stepped: each stays in its slot
/// and on its region.
pub open spec fn stepped_all(entries: Entries, barriers_on: bool, bound: i64, dt: u32) -> Entries {
    Map::new(
        |slot: u64| entries.dom().contains(slot),
        |slot: u64|
            Placed { region: entries[slot].region, particle: entries[slot].particle.stepped(barriers_on, bound, dt) },
    )
}

/// The entries of a world after one tick of `dt` milliseconds.  Where
/// barriers are disabled, the particles at or beyond the lower bound are
/// removed first.  Then every particle that is left is stepped.
pub open spec fn ticked(entries: Entries, config: Config, dt: u32) -> Entries {
    stepped_all(
        if config.barriers_on {
            entries
        } else {
            survivors(entries, LOWER_BOUND)
        },
        config.barriers_on,
        LOWER_BOUND,
        dt,
    )
}

/// Whether `particles` are the particles of `entries`, each one once, in
/// some order.
pub open spec fn lists(particles: Seq<Particle>, entries: Entries) -> bool {
    exists|items: Seq<(u64, Placed)>|
        #[trigger] enumerates(items, entries) && particles == items.map_values(
            |item: (u64, Placed)| item.1.particle,
        )
}

/// The first horizontal coordinate that lies to the right of the visible
/// region.
pub const RIGHT_BOUND: i64 = 640000;

/// The two bounds are the edges of the visible region, in fixed-point
/// units.
pub proof fn lemma_bounds()
    ensures
        LOWER_BOUND == HEIGHT * SUBCELLS,
        RIGHT_BOUND == WIDTH * SUBCELLS,
        EXTENT == pow2(DEPTH as nat),
{
    lemma2_to64();
}

/// Whether the particle is shown: it is above the lower bound and not to
/// the right of the visible region.
pub open spec fn shown(particle: Particle) -> bool {
    particle.position_current.y < LOWER_BOUND && particle.position_current.x < RIGHT_BOUND
}

/// The pixel that a coordinate falls on.  Coordinates left of or above the
/// origin fall on the first pixel.
pub open spec fn pixel_of(coordinate: i64) -> usize {
    if coordinate < 0 {
        0
    } else {
        (coordinate / SUBCELLS) as usize
    }
}

/// The buffer after the sprite was stamped on it for one particle, in the
/// colour of the particle.  A particle that is not shown leaves no mark.
pub open spec fn stamped(screen: Seq<u8>, width: usize, height: usize, particle: Particle) -> Seq<u8> {
    if shown(particle) {
        blitted(
            screen,
            Point { x: pixel_of(particle.position_current.x), y: pixel_of(particle.position_current.y) },
            width,
            height,
            particle.color@,
        )
    } else {
        screen
    }
}

/// The buffer after the sprite was stamped on it for each of the
/// particles, one after the other.
pub open spec fn drawn(screen: Seq<u8>, width: usize, height: usize, particles: Seq<Particle>) -> Seq<u8>
    decreases particles.len(),
{
    if particles.len() == 0 {
        screen
    } else {
        stamped(drawn(screen, width, height, particles.drop_last()), width, height, particles.last())
    }
}

/// Stamps the sprite on the buffer for each of the particles, one after
/// the other, each in its own colour.
pub fn draw_particles(frame: &mut [u8], sprite: &Sprite, particles: &Vec<Particle>)
    requires
        old(frame)@.len() >= frame_bytes(),
        sprite.width <= 4,
    ensures
        final(frame)@ == drawn(old(frame)@, sprite.width, sprite.height, particles@),
{
    let mut n: usize = 0;
    while n < particles.len()
        invariant
            n <= particles@.len(),
            frame@.len() == old(frame)@.len(),
            frame@.len() >= frame_bytes(),
            sprite.width <= 4,
            frame@ == drawn(old(frame)@, sprite.width, sprite.height, particles@.take(n as int)),
        decreases particles@.len() - n,
    {
        let particle = particles[n];
        if particle.position_current.y < LOWER_BOUND && particle.position_current.x < RIGHT_BOUND
            && sprite.height <= HEIGHT as usize {
            let x = if particle.position_current.x < 0 {
                0
            } else {
                (particle.position_current.x / SUBCELLS) as usize
            };
            let y = if particle.position_current.y < 0 {
                0
            } else {
                (particle.position_current.y / SUBCELLS) as usize
            };
            let pos = Point::new(x, y);
            blit(frame, &pos, sprite, particle.color);
        }
        proof {
            let more = particles@.take(n as int + 1);
            assert(more.drop_last() =~= particles@.take(n as int));
        }
        n = n + 1;
    }
    assert(particles@.take(n as int) =~= particles@);
}

/// A world of particles.
pub struct World {
    particle_tree: SpatialIndex,
    config: Config,
    spawned: u64,
}

impl World {
    /// The particles of the world with the regions they were placed on, by
    /// slot.
    pub closed spec fn view(&self) -> Entries {
        self.particle_tree@
    }

    /// The configuration that the world was built with.
    pub closed spec fn config(&self) -> Config {
        self.config
    }

    /// The stamp that the next particle will carry.
    pub closed spec fn next_stamp(&self) -> u64 {
        self.spawned
    }

    /// The index of a world covers the square of side `EXTENT`, and every
    /// particle was placed on a region inside that square.
    pub closed spec fn wf(&self) -> bool {
        &&& self.particle_tree.wf()
        &&& self.particle_tree.side() == EXTENT
        &&& forall|slot: u64| #[trigger]
            self.particle_tree@.dom().contains(slot) ==> self.particle_tree@[slot].region.valid()
                && self.particle_tree@[slot].region.within(EXTENT as nat)
    }

    /// A world holds finitely many particles.
    pub proof fn lemma_finite(&self)
        requires
            self.wf(),
        ensures
            self@.dom().finite(),
    {
        self.particle_tree.lemma_finite();
    }

    /// Every particle of a world was placed on a region inside the extent.
    pub proof fn lemma_placed_inside(&self, slot: u64)
        requires
            self.wf(),
            self@.dom().contains(slot),
        ensures
            self@[slot].region.valid(),
            self@[slot].region.within(EXTENT as nat),
    {
    }

    /// Creates an empty world.
    pub fn new(config: Config) -> (world: World)
        ensures
            world.wf(),
            world@ == Entries::empty(),
            world.config() == config,
            world.next_stamp() == 0,
    {
        proof {
            lemma2_to64();
        }
        World {
            particle_tree: SpatialIndex::new(DEPTH),
            config,
            spawned: 0,
        }
    }

    /// Adds a particle at rest at `(x, y)`, with a colour picked at random
    /// from the palette.  Returns whether the particle was added: a
    /// position outside the extent of the world is refused.
    pub fn add_particle(&mut self, x: i64, y: i64, variant: ParticleVariant) -> (added: bool)
        requires
            old(self).wf(),
        ensures
            final(self).wf(),
            final(self).config() == old(self).config(),
            added <==> in_extent(x, y),
            !added ==> final(self)@ == old(self)@ && final(self).next_stamp() == old(self).next_stamp(),
            added ==> exists|slot: u64, color: [u8; 4]|
                in_palette(color) && #[trigger] old(self).spawns(*final(self), slot, x, y, color, variant),
    {
        let tint = random_below(PALETTE_LEN);
        let color = color_of(tint);
        let added = self.add_particle_colored(x, y, variant, color);
        assert(in_palette(color));
        added
    }

    /// Whether `after` is this world with one particle more: a particle at
    /// rest at `(x, y)` with the given colour and material, stamped with
    /// the next stamp, on the cell that holds `(x, y)`, in a slot that was
    /// free.
    pub open spec fn spawns(
        self,
        after: World,
        slot: u64,
        x: i64,
        y: i64,
        color: [u8; 4],
        variant: ParticleVariant,
    ) -> bool {
        &&& !self@.dom().contains(slot)
        &&& after@ == self@.insert(
            slot,
            Placed {
                region: cell_of(x, y),
                particle: Particle::resting(Vector2d { x, y }, color, variant, self.next_stamp()),
            },
        )
        &&& after.next_stamp() == if self.next_stamp() < u64::MAX {
            (self.next_stamp() + 1) as u64
        } else {
            self.next_stamp()
        }
    }

    /// Adds a particle at rest at `(x, y)` with the given colour.  Returns
    /// whether the particle was added: a position outside the extent of the
    /// world is refused.
    pub fn add_particle_colored(&mut self, x: i64, y: i64, variant: ParticleVariant, color: [u8; 4]) -> (added:
        bool)
        requires
            old(self).wf(),
        ensures
            final(self).wf(),
            final(self).config() == old(self).config(),
            added <==> in_extent(x, y),
            !added ==> final(self)@ == old(self)@ && final(self).next_stamp() == old(self).next_stamp(),
            added ==> exists|slot: u64| #[trigger] old(self).spawns(*final(self), slot, x, y, color, variant),
    {
        if x < 0 || y < 0 {
            return false;
        }
        let region = Region::new((x / SUBCELLS) as u64, (y / SUBCELLS) as u64, 1, 1);
        let particle = Particle::at_rest(Vector2d::new(x, y), color, variant, self.spawned);
        match self.particle_tree.insert(region, particle) {
            Ok(slot) => {
                if self.spawned < u64::MAX {
                    self.spawned = self.spawned + 1;
                }
                assert(old(self).spawns(*self, slot, x, y, color, variant));
                true
            },
            Err(_) => false,
        }
    }

    /// Removes every particle.
    pub fn clear_particles(&mut self)
        requires
            old(self).wf(),
        ensures
            final(self).wf(),
            final(self)@ == Entries::empty(),
            final(self).config() == old(self).config(),
            final(self).next_stamp() == old(self).next_stamp(),
    {
        self.particle_tree.reset();
    }

    /// Advances the world by one tick of `delta_time` milliseconds.  Where
    /// barriers are disabled, the particles at or beyond the lower bound
    /// are removed.  Then the boundary policy and the integrator are
    /// applied to every particle that is left, wherever it was placed.
    pub fn update(&mut self, delta_time: u32)
        requires
            old(self).wf(),
        ensures
            final(self).wf(),
            final(self)@ == ticked(old(self)@, old(self).config(), delta_time),
            final(self).config() == old(self).config(),
            final(self).next_stamp() == old(self).next_stamp(),
    {
        if !self.config.barriers_on {
            self.particle_tree.cull(LOWER_BOUND);
        }
        let extent = Region::new(0, 0, EXTENT as u64, EXTENT as u64);
        self.particle_tree.step_in(extent, self.config.barriers_on, LOWER_BOUND, delta_time);
        assert(self@ =~= ticked(old(self)@, old(self).config(), delta_time));
    }

    /// Draws the particles on the buffer: the sprite is stamped once for
    /// each particle that is shown, in the colour of the particle.  The
    /// order in which the particles are drawn is that of some listing.
    pub fn draw(&self, frame: &mut [u8], sprite: &Sprite)
        requires
            old(frame)@.len() >= frame_bytes(),
            sprite.width <= 4,
        ensures
            exists|particles: Seq<Particle>| #[trigger]
                lists(particles, self@) && final(frame)@ == drawn(
                    old(frame)@,
                    sprite.width,
                    sprite.height,
                    particles,
                ),
    {
        let particles = self.particles();
        draw_particles(frame, sprite, &particles);
    }

    /// The number of particles.
    pub fn len(&self) -> (n: usize)
        ensures
            n == self@.dom().len(),
    {
        self.particle_tree.len()
    }

    /// The particles of the world, each one once, in no particular order.
    pub fn particles(&self) -> (particles: Vec<Particle>)
        ensures
            lists(particles@, self@),
            particles@.len() == self@.dom().len(),
    {
        let items = self.particle_tree.entries();
        let mut particles: Vec<Particle> = Vec::new();
        let mut i: usize = 0;
        while i < items.len()
            invariant
                i <= items.len(),
                particles@ == items@.subrange(0, i as int).map_values(|item: (u64, Placed)| item.1.particle),
            decreases items.len() - i,
        {
            particles.push(items[i].1.particle);
            i = i + 1;
            assert(particles@ =~= items@.subrange(0, i as int).map_values(
                |item: (u64, Placed)| item.1.particle,
            ));
        }
        assert(items@.subrange(0, i as int) =~= items@);
        particles
    }
}

/// A particle that has just been added has not moved: its two positions
/// are the position it was added at, and its velocity is zero.
pub proof fn lemma_added_particle_is_still(
    before: World,
    after: World,
    slot: u64,
    x: i64,
    y: i64,
    color: [u8; 4],
    variant: ParticleVariant,
)
    requires
        before.spawns(after, slot, x, y, color, variant),
    ensures
        after@.dom().contains(slot),
        after@[slot].particle.position_current == (Vector2d { x, y }),
        after@[slot].particle.position_old == (Vector2d { x, y }),
        after@[slot].particle.spec_velocity() == (Vector2d { x: 0, y: 0 }),
{
}

/// With barriers enabled no particle is removed by a tick, and a particle
/// that had reached the lower bound lies exactly on it afterwards, with
/// no vertical motion left.
pub proof fn lemma_barrier_catches(entries: Entries, dt: u32, slot: u64)
    requires
        entries.dom().contains(slot),
    ensures
        ticked(entries, Config { barriers_on: true }, dt).dom().contains(slot),
        entries[slot].particle.beyond(LOWER_BOUND) ==> {
            let after = ticked(entries, Config { barriers_on: true }, dt)[slot].particle;
            after.position_current.y == LOWER_BOUND && after.position_old.y == LOWER_BOUND
        },
{
    if entries[slot].particle.beyond(LOWER_BOUND) {
        lemma_barrier_stops_particle(entries[slot].particle, LOWER_BOUND, dt);
    }
}

/// With barriers enabled, no particle is below the lower bound after a
/// tick, provided that before the tick every particle either had reached
/// the bound or does not pass it in this step.  The boundary policy comes
/// before the integrator: a particle that passes the bound in a step is
/// laid on it in the next.
pub proof fn lemma_barriers_hold(entries: Entries, dt: u32)
    requires
        forall|slot: u64| #[trigger]
            entries.dom().contains(slot) ==> entries[slot].particle.beyond(LOWER_BOUND)
                || entries[slot].particle.integrated(dt).position_current.y <= LOWER_BOUND,
    ensures
        forall|slot: u64| #[trigger]
            ticked(entries, Config { barriers_on: true }, dt).dom().contains(slot) ==> ticked(
                entries,
                Config { barriers_on: true },
                dt,
            )[slot].particle.position_current.y <= LOWER_BOUND,
{
    let after = ticked(entries, Config { barriers_on: true }, dt);
    assert forall|slot: u64| #[trigger] after.dom().contains(slot) implies after[slot].particle.position_current.y
        <= LOWER_BOUND by {
        if entries[slot].particle.beyond(LOWER_BOUND) {
            lemma_barrier_stops_particle(entries[slot].particle, LOWER_BOUND, dt);
        }
    }
}

/// The velocity gained in one tick carries over to the next.  A particle
/// that starts at rest under gravity alone, and that is still above the lower bound after the first tick, has fallen by
/// `g * dt^2` after one tick and by three times as much, not twice, after
/// two.  This holds with and without barriers, as long as the coordinate
/// does not saturate.
pub proof fn lemma_two_ticks_from_rest(entries: Entries, config: Config, dt: u32, slot: u64)
    requires
        entries.dom().contains(slot),
        entries[slot].particle.position_old == entries[slot].particle.position_current,
        entries[slot].particle.acceleration == gravity(),
        entries[slot].particle.position_current.y + GRAVITY * dt * dt < LOWER_BOUND,
        entries[slot].particle.position_current.y + 3 * (GRAVITY * dt * dt) <= i64::MAX,
    ensures
        ticked(entries, config, dt).dom().contains(slot),
        ticked(entries, config, dt)[slot].particle.position_current == (Vector2d {
            x: entries[slot].particle.position_current.x,
            y: (entries[slot].particle.position_current.y + GRAVITY * dt * dt) as i64,
        }),
        ticked(ticked(entries, config, dt), config, dt).dom().contains(slot),
        ticked(ticked(entries, config, dt), config, dt)[slot].particle.position_current == (Vector2d {
            x: entries[slot].particle.position_current.x,
            y: (entries[slot].particle.position_current.y + 3 * (GRAVITY * dt * dt)) as i64,
        }),
{
    lemma_two_steps_from_rest(entries[slot].particle, dt);
}

/// With barriers disabled, a particle that has reached the lower bound is
/// gone after the next tick, and every particle that remains was there
/// before and had not reached the bound.
pub proof fn lemma_escaped_particles_are_culled(entries: Entries, dt: u32, slot: u64)
    ensures
        entries.dom().contains(slot) && entries[slot].particle.beyond(LOWER_BOUND) ==> !ticked(
            entries,
            Config { barriers_on: false },
            dt,
        ).dom().contains(slot),
        ticked(entries, Config { barriers_on: false }, dt).dom().contains(slot) ==> entries.dom().contains(slot)
            && !entries[slot].particle.beyond(LOWER_BOUND),
{
}

/// A tick adds no particle and moves none to another region: whatever is
/// in the world afterwards was there before, in the same slot and on the
/// same region, with the colour, the stamp and the material it had, and
/// is what the boundary policy and the integrator make of it.
pub proof fn lemma_tick_keeps_places(entries: Entries, config: Config, dt: u32, slot: u64)
    requires
        ticked(entries, config, dt).dom().contains(slot),
    ensures
        entries.dom().contains(slot),
        ticked(entries, config, dt)[slot].region == entries[slot].region,
        ticked(entries, config, dt)[slot].particle == entries[slot].particle.stepped(
            config.barriers_on,
            LOWER_BOUND,
            dt,
        ),
        ticked(entries, config, dt)[slot].particle.color == entries[slot].particle.color,
        ticked(entries, config, dt)[slot].particle.created == entries[slot].particle.created,
        ticked(entries, config, dt)[slot].particle.variant == entries[slot].particle.variant,
{
}

/// Every particle of a listing is the particle of some entry.
pub proof fn lemma_listed_particles_are_entries(particles: Seq<Particle>, entries: Entries, i: int)
    requires
        lists(particles, entries),
        0 <= i < particles.len(),
    ensures
        exists|slot: u64| #[trigger] entries.dom().contains(slot) && entries[slot].particle == particles[i],
{
    let items = choose|items: Seq<(u64, Placed)>|
        #[trigger] enumerates(items, entries) && particles == items.map_values(
            |item: (u64, Placed)| item.1.particle,
        );
    assert(entries.dom().contains(items[i].0));
}

/// A world without entries lists no particles.
pub proof fn lemma_empty_world_lists_nothing(particles: Seq<Particle>)
    requires
        lists(particles, Entries::empty()),
    ensures
        particles.len() == 0,
{
}

} // verus!
