//! The particles of the falling-sand grid.

use vstd::prelude::*;

verus! {

/// What a particle gains in speed when it is accelerated once, in tenths
/// of a cell per tick.
pub const GRAVITY: u32 = 1;

/// What a particle loses in speed when it has moved down by one cell, in
/// tenths of a cell per tick.
pub const CELL: u32 = 10;

/// The kinds of matter.
#[derive(Clone, Copy, Debug, PartialEq, Eq, Structural)]
pub enum Element {
    Sand,
}

impl Element {
    /// The colour of the element, as red, green, blue and alpha.
    pub open spec fn spec_color(element: Element) -> Seq<u8> {
        match element {
            Element::Sand => seq![255u8, 203u8, 0u8, 255u8],
        }
    }

    /// The colour of the element, as red, green, blue and alpha.  Sand is
    /// gold.
    pub fn color(element: &Element) -> (color: [u8; 4])
        ensures
            color@ == Element::spec_color(*element),
    {
        let color: [u8; 4] = match *element {
            Element::Sand => [255, 203, 0, 255],
        };
        assert(color@ =~= Element::spec_color(*element));
        color
    }
}

/// A particle of the grid.  Its speed is held in tenths of a cell per tick.
#[derive(Clone, Copy, Debug, PartialEq, Eq, Structural)]
pub struct Particle {
    pub element: Element,
    velocity: u32,
}

impl Particle {
    /// The speed of the particle, in tenths of a cell per tick.
    pub closed spec fn speed(self) -> u32 {
        self.velocity
    }

    /// The element that the particle is made of.
    pub closed spec fn matter(self) -> Element {
        self.element
    }

    /// The particle after it was accelerated once.
    pub open spec fn accelerated(self) -> Particle {
        self.with_speed(
            if self.speed() + GRAVITY > u32::MAX {
                u32::MAX
            } else {
                (self.speed() + GRAVITY) as u32
            },
        )
    }

    /// The particle after it has moved down by one cell.
    pub open spec fn moved_down(self) -> Particle {
        self.with_speed(
            if self.speed() < CELL {
                0
            } else {
                (self.speed() - CELL) as u32
            },
        )
    }

    /// The particle with another speed.
    pub closed spec fn with_speed(self, speed: u32) -> Particle {
        Particle { element: self.element, velocity: speed }
    }

    /// What `with_speed` changes and what it keeps.
    pub proof fn lemma_with_speed(self, speed: u32)
        ensures
            self.with_speed(speed).speed() == speed,
            self.with_speed(speed).matter() == self.matter(),
            self.with_speed(self.speed()) == self,
    {
    }

    /// Creates a particle that does not move.
    pub fn new(element: Element) -> (particle: Particle)
        ensures
            particle.matter() == element,
            particle.speed() == 0,
    {
        Particle { element, velocity: 0 }
    }

    /// The speed of the particle, in tenths of a cell per tick.
    pub fn velocity(&self) -> (speed: u32)
        ensures
            speed == self.speed(),
    {
        self.velocity
    }

    /// The colour of the particle: that of its element.
    pub fn color(&self) -> (color: [u8; 4])
        ensures
            color@ == Element::spec_color(self.matter()),
    {
        Element::color(&self.element)
    }

    /// Lets gravity act on the particle once.  The speed stops growing at
    /// the largest value it can hold.
    pub fn accelerate(&mut self)
        ensures
            *final(self) == old(self).accelerated(),
    {
        self.velocity = if self.velocity > u32::MAX - GRAVITY {
            u32::MAX
        } else {
            self.velocity + GRAVITY
        };
    }

    /// Takes from the speed what one cell of fall uses up.  The speed
    /// does not go below zero.
    pub fn move_down(&mut self)
        ensures
            *final(self) == old(self).moved_down(),
    {
        self.velocity = if self.velocity < CELL {
            0
        } else {
            self.velocity - CELL
        };
    }
}

} // verus!
