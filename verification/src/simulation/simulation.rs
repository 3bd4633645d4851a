//! The cell-addressed engine: a dense grid in which a particle falls by one
//! cell per tick as long as the cell below it is free.

use vstd::prelude::*;
use crate::simulation::particle::Particle;

verus! {

/// One column of the grid, from the top row down.
pub type Column = Seq<Option<Particle>>;

/// Whether the particle in row `y` of the column falls in this tick.  The
/// first and the last row never move.  Anywhere else a particle falls if
/// the cell below it is free, or if it will be free because its own
/// particle falls.
pub open spec fn falls(column: Column, y: int) -> bool
    decreases column.len() - y,
{
    &&& 1 <= y < column.len() - 1
    &&& column[y] is Some
    &&& (column[y + 1] is None || falls(column, y + 1))
}

/// What row `y` of the column holds after a tick.
pub open spec fn settled_cell(column: Column, y: int) -> Option<Particle> {
    if y >= 1 && falls(column, y - 1) {
        column[y - 1]
    } else if falls(column, y) {
        None
    } else {
        column[y]
    }
}

/// The column after a tick.
pub open spec fn settled(column: Column) -> Column {
    Seq::new(column.len(), |y: int| settled_cell(column, y))
}

/// The cell-addressed engine.  `grid[x][y]` is the cell in column `x` and
/// row `y`; rows are counted from the top.
pub struct Simulation {
    pub grid: Vec<Vec<Option<Particle>>>,
}

impl Simulation {
    /// The number of columns.
    pub open spec fn columns(&self) -> int {
        self.grid@.len() as int
    }

    /// The number of rows.
    pub open spec fn rows(&self) -> int {
        if self.grid@.len() == 0 {
            0
        } else {
            self.grid@[0]@.len() as int
        }
    }

    /// Column `x` of the grid.
    pub open spec fn column(&self, x: int) -> Column {
        self.grid@[x]@
    }

    /// Every column has the same number of rows.
    pub open spec fn wf(&self) -> bool {
        forall|x: int| 0 <= x < self.columns() ==> (#[trigger] self.grid@[x])@.len() == self.rows()
    }

    /// Whether the two grids have the same size.
    pub open spec fn same_size(&self, other: &Simulation) -> bool {
        self.columns() == other.columns() && self.rows() == other.rows()
    }

    /// Creates an empty grid of `width` columns and `height` rows.
    pub fn new(width: usize, height: usize) -> (simulation: Simulation)
        ensures
            simulation.wf(),
            simulation.columns() == width,
            width > 0 ==> simulation.rows() == height,
            forall|x: int, y: int|
                0 <= x < width && 0 <= y < height ==> (#[trigger] simulation.column(x)[y]) is None,
    {
        let mut grid: Vec<Vec<Option<Particle>>> = Vec::new();
        let mut x: usize = 0;
        while x < width
            invariant
                x <= width,
                grid@.len() == x,
                forall|i: int| 0 <= i < x ==> (#[trigger] grid@[i])@.len() == height,
                forall|i: int, j: int| 0 <= i < x && 0 <= j < height ==> (#[trigger] grid@[i]@[j]) is None,
            decreases width - x,
        {
            let mut column: Vec<Option<Particle>> = Vec::new();
            let mut y: usize = 0;
            while y < height
                invariant
                    y <= height,
                    column@.len() == y,
                    forall|j: int| 0 <= j < y ==> (#[trigger] column@[j]) is None,
                decreases height - y,
            {
                column.push(None);
                y = y + 1;
            }
            grid.push(column);
            x = x + 1;
        }
        Simulation { grid }
    }

    /// The grid.
    pub fn grid(&self) -> (grid: &Vec<Vec<Option<Particle>>>)
        ensures
            *grid == self.grid,
    {
        &self.grid
    }

    /// Puts `particle` into the cell `(x, y)`, replacing what was there.
    /// Returns whether the cell exists; if it does not, nothing changes.
    pub fn spawn_particle(&mut self, x: usize, y: usize, particle: Particle) -> (placed: bool)
        requires
            old(self).wf(),
        ensures
            final(self).wf(),
            final(self).same_size(old(self)),
            placed <==> x < old(self).columns() && y < old(self).rows(),
            !placed ==> final(self).grid@ == old(self).grid@,
            placed ==> final(self).column(x as int) == old(self).column(x as int).update(
                y as int,
                Some(particle),
            ),
            forall|i: int|
                0 <= i < old(self).columns() && i != x ==> #[trigger] final(self).grid@[i] == old(self).grid@[i],
    {
        if x >= self.grid.len() {
            return false;
        }
        if y >= self.grid[x].len() {
            return false;
        }
        self.grid[x][y] = Some(particle);
        true
    }

    /// Whether the rule moves anything when it is applied to the cell
    /// `(x, y)`: the cell is not in the outer ring of the grid, and the
    /// cell below it is free.
    pub open spec fn may_fall(&self, x: int, y: int) -> bool {
        &&& 0 < x < self.columns() - 1
        &&& 0 < y < self.rows() - 1
        &&& self.column(x)[y + 1] is None
    }

    /// Applies the rule of the automaton to the cell `(x, y)`, which holds
    /// `particle`: where the cell below is free, the particle moves into
    /// it.  Cells in the first or last column, and in the first or last
    /// row, never move.
    pub fn apply_rules(&mut self, x: usize, y: usize, particle: Particle)
        requires
            old(self).wf(),
            x < old(self).columns(),
            y < old(self).rows(),
        ensures
            final(self).wf(),
            final(self).same_size(old(self)),
            forall|i: int|
                0 <= i < old(self).columns() && i != x ==> #[trigger] final(self).grid@[i] == old(self).grid@[i],
            final(self).column(x as int) == if old(self).may_fall(x as int, y as int) {
                old(self).column(x as int).update(y as int, None).update(y + 1, Some(particle))
            } else {
                old(self).column(x as int)
            },
    {
        if x == 0 || x == self.grid.len() - 1 {
            return ;
        }
        if y == self.grid[0].len() - 1 {
            return ;
        }
        if y > 0 && self.grid[x][y + 1].is_none() {
            self.grid[x][y] = None;
            self.grid[x][y + 1] = Some(particle);
        }
    }

    /// Advances the grid by one tick.  Every column but the first and the
    /// last is scanned from the bottom up, so that a particle that has
    /// moved is not looked at again in the same tick.
    pub fn update(&mut self)
        requires
            old(self).wf(),
        ensures
            final(self).wf(),
            final(self).same_size(old(self)),
            forall|x: int|
                0 <= x < old(self).columns() ==> (#[trigger] final(self).grid@[x])@ == if 0 < x < old(
                    self,
                ).columns() - 1 {
                    settled(old(self).column(x))
                } else {
                    old(self).column(x)
                },
    {
        let width = self.grid.len();
        let mut x: usize = 0;
        while x < width
            invariant
                x <= width,
                width == old(self).columns(),
                self.wf(),
                self.same_size(old(self)),
                forall|i: int| x <= i < width ==> #[trigger] self.grid@[i] == old(self).grid@[i],
                forall|i: int|
                    0 <= i < x ==> (#[trigger] self.grid@[i])@ == if 0 < i < width - 1 {
                        settled(old(self).column(i))
                    } else {
                        old(self).column(i)
                    },
            decreases width - x,
        {
            let height = self.grid[0].len();
            let ghost before = old(self).column(x as int);
            let ghost interior = 0 < x < width - 1;
            assert(self.grid@[x as int] == old(self).grid@[x as int]);
            let mut y: usize = height;
            while y > 1
                invariant
                    x < width,
                    width == old(self).columns(),
                    height == old(self).rows(),
                    before == old(self).column(x as int),
                    before.len() == height,
                    interior == (0 < x < width - 1),
                    y <= height,
                    height > 0 ==> y > 0,
                    self.wf(),
                    self.same_size(old(self)),
                    forall|i: int| x < i < width ==> #[trigger] self.grid@[i] == old(self).grid@[i],
                    forall|i: int|
                        0 <= i < x ==> (#[trigger] self.grid@[i])@ == if 0 < i < width - 1 {
                            settled(old(self).column(i))
                        } else {
                            old(self).column(i)
                        },
                    self.grid@[x as int]@.len() == height,
                    !interior ==> self.grid@[x as int]@ == before,
                    interior ==> forall|r: int|
                        0 <= r < y && r < height ==> #[trigger] self.grid@[x as int]@[r] == before[r],
                    interior ==> forall|r: int|
                        y < r < height ==> #[trigger] self.grid@[x as int]@[r] == settled_cell(before, r),
                    interior && 0 < y < height ==> self.grid@[x as int]@[y as int] == if falls(
                        before,
                        y as int,
                    ) {
                        None
                    } else {
                        before[y as int]
                    },
                decreases y,
            {
                y = y - 1;
                let cell = self.grid[x][y];
                if let Some(particle) = cell {
                    self.apply_rules(x, y, particle);
                }
            }
            x = x + 1;
        }
    }
}

/// The number of particles in the rows of the column from `from` down.
pub open spec fn occupied_from(column: Column, from: int) -> nat
    decreases column.len() - from,
{
    if from < 0 || from >= column.len() {
        0
    } else if column[from] is Some {
        1 + occupied_from(column, from + 1)
    } else {
        occupied_from(column, from + 1)
    }
}

/// In one tick a particle stays where it is or moves down by exactly one
/// row: what a cell holds afterwards was in that cell or in the cell above.
pub proof fn lemma_particle_falls_one_row_at_most(column: Column, y: int)
    requires
        0 <= y < column.len(),
        settled(column)[y] is Some,
    ensures
        settled(column)[y] == column[y] || (y >= 1 && settled(column)[y] == column[y - 1]),
{
}

/// A particle away from the first and the last row, with a free cell
/// directly below it, is in that cell after the tick.
pub proof fn lemma_particle_falls_into_free_cell(column: Column, y: int)
    requires
        1 <= y < column.len() - 1,
        column[y] is Some,
        column[y + 1] is None,
    ensures
        settled(column)[y + 1] == column[y],
{
}

/// The particles in the first and in the last row stay where they are.
pub proof fn lemma_outer_rows_stay(column: Column)
    requires
        column.len() > 0,
    ensures
        column[0] is Some ==> settled(column)[0] == column[0],
        column[column.len() - 1] is Some ==> settled(column)[column.len() - 1] == column[column.len() - 1],
{
    let last = column.len() - 1;
    if last >= 1 && column[last] is Some {
        assert(!falls(column, last - 1)) by {
            assert(!falls(column, last));
        }
    }
}

/// A tick neither creates nor destroys particles: from any row down, the
/// column holds afterwards the particles it held before and, where the
/// particle of the row above falls, that particle too.
pub proof fn lemma_settling_keeps_particles(column: Column, from: int)
    requires
        0 <= from <= column.len(),
    ensures
        occupied_from(settled(column), from) == occupied_from(column, from) + if from >= 1 && falls(
            column,
            from - 1,
        ) {
            1nat
        } else {
            0nat
        },
    decreases column.len() - from,
{
    if from < column.len() {
        lemma_settling_keeps_particles(column, from + 1);
    }
}

/// A tick neither creates nor destroys particles.
pub proof fn lemma_settling_keeps_count(column: Column)
    ensures
        occupied_from(settled(column), 0) == occupied_from(column, 0),
{
    lemma_settling_keeps_particles(column, 0);
}

} // verus!
