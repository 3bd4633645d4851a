//! The grid of the falling-sand automaton.

use vstd::prelude::*;
use crate::sim::particle::{Element, Particle};

verus! {

/// The cells of a grid, row after row.
pub type Cells = Seq<Option<Particle>>;

/// Whether `(x, y)` is a position of a grid of the given size.
pub open spec fn in_grid(width: int, height: int, x: int, y: int) -> bool {
    0 <= x < width && 0 <= y < height
}

/// The index of the cell `(x, y)`.
pub open spec fn cell_index(width: int, x: int, y: int) -> int {
    y * width + x
}

/// The index of the cell below the cell with the given index, if the grid
/// has a row below.
pub open spec fn cell_below(cells: Cells, width: int, index: int) -> Option<int> {
    if index + width < cells.len() {
        Some(index + width)
    } else {
        None
    }
}

/// Whether the particle in the cell `index` falls in this tick: there is a
/// cell below it, and that cell was free before the tick.
pub open spec fn falls(cells: Cells, width: int, index: int) -> bool {
    &&& 0 <= index < cells.len()
    &&& cells[index] is Some
    &&& index + width < cells.len()
    &&& cells[index + width] is None
}

/// What the cell `index` holds after a tick.  A particle that does not
/// fall stays in its cell; a free cell takes the particle from the cell
/// above, if there is one, since that particle falls.  Every particle
/// loses the speed of one cell of fall.
pub open spec fn settled_cell(cells: Cells, width: int, index: int) -> Option<Particle> {
    if cells[index] is Some {
        if falls(cells, width, index) {
            None
        } else {
            Some(cells[index]->0.moved_down())
        }
    } else if falls(cells, width, index - width) {
        Some(cells[index - width]->0.moved_down())
    } else {
        None
    }
}

/// The cells after a tick.
pub open spec fn settled(cells: Cells, width: int) -> Cells {
    Seq::new(cells.len(), |index: int| settled_cell(cells, width, index))
}

/// What the cell `index` holds once the particles of the first `upto`
/// cells were put where they belong, on a grid that was empty before.
spec fn settled_so_far(cells: Cells, width: int, upto: int, index: int) -> Option<Particle> {
    if index < upto && cells[index] is Some && !falls(cells, width, index) {
        Some(cells[index]->0.moved_down())
    } else if index - width < upto && falls(cells, width, index - width) {
        Some(cells[index - width]->0.moved_down())
    } else {
        None
    }
}

/// The indices below `upto` of the cells that hold a particle, in rising
/// order.
pub open spec fn in_use(cells: Cells, upto: int) -> Seq<int>
    decreases upto,
{
    if upto <= 0 {
        Seq::empty()
    } else if cells[upto - 1] is Some {
        in_use(cells, upto - 1).push(upto - 1)
    } else {
        in_use(cells, upto - 1)
    }
}

/// The number of particles in the grid.
pub open spec fn particles(cells: Cells) -> nat {
    in_use(cells, cells.len() as int).len()
}

/// The number of cells below `upto` whose particle falls.
spec fn falling(cells: Cells, width: int, upto: int) -> nat
    decreases upto,
{
    if upto <= 0 {
        0
    } else if falls(cells, width, upto - 1) {
        falling(cells, width, upto - 1) + 1
    } else {
        falling(cells, width, upto - 1)
    }
}

/// No particle falls from the last row.
proof fn lemma_last_row_stays(cells: Cells, width: int, from: int, upto: int)
    requires
        width > 0,
        0 <= from <= upto <= cells.len(),
        from >= cells.len() - width,
    ensures
        falling(cells, width, upto) == falling(cells, width, from),
    decreases upto - from,
{
    if from < upto {
        lemma_last_row_stays(cells, width, from, upto - 1);
    }
}

/// Among the first `upto` cells, what a tick takes away by letting
/// particles fall out of them it gives back by letting particles fall into
/// them, but for the particles that fall further down.
proof fn lemma_settled_count(cells: Cells, width: int, upto: int)
    requires
        width > 0,
        0 <= upto <= cells.len(),
    ensures
        in_use(settled(cells, width), upto).len() + falling(cells, width, upto) == in_use(cells, upto).len()
            + falling(cells, width, upto - width),
    decreases upto,
{
    if upto > 0 {
        lemma_settled_count(cells, width, upto - 1);
        assert(settled(cells, width)[upto - 1] == settled_cell(cells, width, upto - 1));
    }
}

/// A tick neither makes nor loses a particle.
pub proof fn lemma_tick_keeps_particles(cells: Cells, width: int)
    requires
        width > 0,
    ensures
        particles(settled(cells, width)) == particles(cells),
{
    let len = cells.len() as int;
    lemma_settled_count(cells, width, len);
    if len >= width {
        lemma_last_row_stays(cells, width, len - width, len);
    } else {
        lemma_last_row_stays(cells, width, 0, len);
    }
}

/// A particle with a free cell below it is in that cell after the tick,
/// and its own cell is free unless the particle above it fell into it.
pub proof fn lemma_particle_falls(cells: Cells, width: int, index: int)
    requires
        width > 0,
        falls(cells, width, index),
    ensures
        settled(cells, width)[index + width] == Some(cells[index]->0.moved_down()),
        settled(cells, width)[index] is None,
{
}

/// A particle in the last row, and one whose cell below is taken, stays
/// where it is.
pub proof fn lemma_particle_stays(cells: Cells, width: int, index: int)
    requires
        width > 0,
        0 <= index < cells.len(),
        cells[index] is Some,
        !falls(cells, width, index),
    ensures
        settled(cells, width)[index] == Some(cells[index]->0.moved_down()),
{
}

/// The index of a position inside the grid is the index of a cell.
proof fn lemma_cell_in_grid(width: int, height: int, x: int, y: int)
    by (nonlinear_arith)
    requires
        0 <= x < width,
        0 <= y < height,
    ensures
        0 <= y * width + x < width * height,
{
}

/// A grid of `width` by `height` cells.
pub struct Grid {
    width: usize,
    height: usize,
    cells: Vec<Option<Particle>>,
}

impl Grid {
    /// The cells of the grid, row after row.
    pub closed spec fn view(&self) -> Cells {
        self.cells@
    }

    /// The number of columns.
    pub closed spec fn spec_width(&self) -> usize {
        self.width
    }

    /// The number of rows.
    pub closed spec fn spec_height(&self) -> usize {
        self.height
    }

    /// The grid has one cell for each position.
    pub closed spec fn wf(&self) -> bool {
        self.cells@.len() == self.width * self.height
    }

    /// What is known of a well-formed grid.
    pub proof fn lemma_wf(&self)
        requires
            self.wf(),
        ensures
            self@.len() == self.spec_width() * self.spec_height(),
    {
    }

    /// Creates an empty grid.
    pub fn new(width: usize, height: usize) -> (grid: Grid)
        requires
            width * height <= usize::MAX,
        ensures
            grid.wf(),
            grid.spec_width() == width,
            grid.spec_height() == height,
            grid@.len() == width * height,
            forall|i: int| 0 <= i < grid@.len() ==> (#[trigger] grid@[i]) is None,
    {
        let count = width * height;
        let mut cells: Vec<Option<Particle>> = Vec::new();
        let mut i: usize = 0;
        while i < count
            invariant
                i <= count,
                cells@.len() == i,
                forall|k: int| 0 <= k < i ==> (#[trigger] cells@[k]) is None,
            decreases count - i,
        {
            cells.push(None);
            i = i + 1;
        }
        Grid { width, height, cells }
    }

    /// Empties every cell.
    pub fn clear(&mut self)
        requires
            old(self).wf(),
        ensures
            final(self).wf(),
            final(self).spec_width() == old(self).spec_width(),
            final(self).spec_height() == old(self).spec_height(),
            final(self)@.len() == old(self)@.len(),
            forall|i: int| 0 <= i < final(self)@.len() ==> (#[trigger] final(self)@[i]) is None,
    {
        let mut i: usize = 0;
        while i < self.cells.len()
            invariant
                i <= self.cells@.len(),
                self.width == old(self).width,
                self.height == old(self).height,
                self.cells@.len() == old(self).cells@.len(),
                forall|k: int| 0 <= k < i ==> (#[trigger] self.cells@[k]) is None,
            decreases self.cells@.len() - i,
        {
            self.cells[i] = None;
            i = i + 1;
        }
    }

    /// The index of the cell `(x, y)`, if the grid has such a cell.
    pub fn index(&self, x: usize, y: usize) -> (index: Option<usize>)
        requires
            self.wf(),
        ensures
            index is Some <==> in_grid(self.spec_width() as int, self.spec_height() as int, x as int, y as int),
            index is Some ==> index->0 == cell_index(self.spec_width() as int, x as int, y as int),
            index is Some ==> index->0 < self@.len(),
    {
        if x >= self.width || y >= self.height {
            return None;
        }
        let count = self.cells.len();
        proof {
            lemma_cell_in_grid(self.width as int, self.height as int, x as int, y as int);
        }
        Some(y * self.width + x)
    }

    /// The index of the cell below the cell with the given index, if the
    /// grid has a row below.
    pub fn below_index(&self, index: usize) -> (below: Option<usize>)
        ensures
            below is Some <==> cell_below(self@, self.spec_width() as int, index as int) is Some,
            below is Some ==> below->0 == index + self.spec_width(),
            below is Some ==> below->0 < self@.len(),
    {
        let count = self.cells.len();
        if index < count && self.width < count - index {
            Some(index + self.width)
        } else {
            None
        }
    }

    /// What the cell holds.
    pub fn cell(&self, index: usize) -> (held: Option<Particle>)
        requires
            index < self@.len(),
        ensures
            held == self@[index as int],
    {
        self.cells[index]
    }

    /// Whether the cell is free.
    pub fn is_empty(&self, index: usize) -> (free: bool)
        requires
            index < self@.len(),
        ensures
            free == (self@[index as int] is None),
    {
        self.cells[index].is_none()
    }

    /// Puts `particle` into the cell `(x, y)`, replacing what was there.
    /// Returns whether the grid has such a cell; if it has not, nothing
    /// changes.
    pub fn set(&mut self, x: usize, y: usize, particle: Particle) -> (placed: bool)
        requires
            old(self).wf(),
        ensures
            final(self).wf(),
            final(self).spec_width() == old(self).spec_width(),
            final(self).spec_height() == old(self).spec_height(),
            placed <==> in_grid(old(self).spec_width() as int, old(self).spec_height() as int, x as int, y as int),
            !placed ==> final(self)@ == old(self)@,
            placed ==> final(self)@ == old(self)@.update(
                cell_index(old(self).spec_width() as int, x as int, y as int),
                Some(particle),
            ),
    {
        match self.index(x, y) {
            Some(index) => {
                self.cells[index] = Some(particle);
                true
            },
            None => false,
        }
    }

    /// Exchanges what two cells hold.
    pub fn swap(&mut self, a: usize, b: usize)
        requires
            old(self).wf(),
            a < old(self)@.len(),
            b < old(self)@.len(),
        ensures
            final(self).wf(),
            final(self).spec_width() == old(self).spec_width(),
            final(self).spec_height() == old(self).spec_height(),
            final(self)@ == old(self)@.update(a as int, old(self)@[b as int]).update(
                b as int,
                old(self)@[a as int],
            ),
    {
        let first = self.cells[a];
        let second = self.cells[b];
        self.cells[a] = second;
        self.cells[b] = first;
    }

    /// Advances the grid by one tick.  Every particle is looked at as the
    /// grid was before the tick: it moves into the cell below if there is
    /// one and it was free, and stays otherwise.  No particle is made or
    /// lost.
    pub fn update(&mut self)
        requires
            old(self).wf(),
        ensures
            final(self).wf(),
            final(self).spec_width() == old(self).spec_width(),
            final(self).spec_height() == old(self).spec_height(),
            final(self)@ == settled(old(self)@, old(self).spec_width() as int),
            particles(final(self)@) == particles(old(self)@),
    {
        let count = self.cells.len();
        let mut new_cells: Vec<Option<Particle>> = Vec::new();
        let mut k: usize = 0;
        while k < count
            invariant
                k <= count,
                new_cells@.len() == k,
                forall|i: int| 0 <= i < k ==> (#[trigger] new_cells@[i]) is None,
            decreases count - k,
        {
            new_cells.push(None);
            k = k + 1;
        }
        let mut index: usize = 0;
        while index < count
            invariant
                index <= count,
                count == self.cells@.len(),
                self.wf(),
                *self == *old(self),
                new_cells@.len() == count,
                forall|i: int|
                    0 <= i < count ==> #[trigger] new_cells@[i] == settled_so_far(
                        self.cells@,
                        self.width as int,
                        index as int,
                        i,
                    ),
            decreases count - index,
        {
            if let Some(particle) = self.cells[index] {
                let mut particle = particle;
                particle.move_down();
                match self.below_index(index) {
                    Some(below_index) => {
                        if self.is_empty(below_index) {
                            new_cells[below_index] = Some(particle);
                        } else {
                            new_cells[index] = Some(particle);
                        }
                    },
                    None => {
                        new_cells[index] = Some(particle);
                    },
                }
            }
            index = index + 1;
        }
        proof {
            assert(new_cells@ =~= settled(self.cells@, self.width as int));
            if count > 0 {
                assert(self.width > 0) by (nonlinear_arith)
                    requires
                        0 < self.width * self.height,
                ;
                lemma_tick_keeps_particles(self.cells@, self.width as int);
            } else {
                assert(new_cells@ =~= self.cells@);
            }
        }
        self.cells = new_cells;
    }

    /// The cells that hold a particle, each with its column, its row and
    /// the colour of its particle, in the order of their indices.
    pub fn occupied(&self) -> (marks: Vec<(usize, usize, [u8; 4])>)
        requires
            self.wf(),
        ensures
            marks@.len() == in_use(self@, self@.len() as int).len(),
            forall|m: int|
                0 <= m < marks@.len() ==> {
                    let index = in_use(self@, self@.len() as int)[m];
                    &&& (#[trigger] marks@[m]).0 == index % (self.spec_width() as int)
                    &&& marks@[m].1 == index / (self.spec_width() as int)
                    &&& marks@[m].2@ == Element::spec_color(self@[index]->0.matter())
                },
    {
        let mut marks: Vec<(usize, usize, [u8; 4])> = Vec::new();
        let mut index: usize = 0;
        while index < self.cells.len()
            invariant
                index <= self.cells@.len(),
                self.wf(),
                marks@.len() == in_use(self.cells@, index as int).len(),
                forall|m: int|
                    0 <= m < marks@.len() ==> {
                        let at = in_use(self.cells@, index as int)[m];
                        &&& (#[trigger] marks@[m]).0 == at % (self.width as int)
                        &&& marks@[m].1 == at / (self.width as int)
                        &&& marks@[m].2@ == Element::spec_color(self.cells@[at]->0.matter())
                    },
            decreases self.cells@.len() - index,
        {
            if let Some(particle) = self.cells[index] {
                assert(self.width > 0) by (nonlinear_arith)
                    requires
                        index < self.width * self.height,
                ;
                let x = index % self.width;
                let y = index / self.width;
                marks.push((x, y, particle.color()));
            }
            index = index + 1;
        }
        marks
    }
}

} // verus!
