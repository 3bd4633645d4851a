//! The spatial index: a region quadtree that maps rectangles of cells to
//! the particles placed on them.

use vstd::prelude::*;
use vstd::arithmetic::power2::pow2;
use quadtree_rs::area::AreaBuilder;
use quadtree_rs::point::Point;
use quadtree_rs::Quadtree;
use crate::simulation::particle::Particle;

verus! {

/// An axis-aligned rectangle of cells, given by its top-left corner and its
/// size.
#[derive(Clone, Copy, Debug, PartialEq, Eq, Structural)]
pub struct Region {
    pub x: u64,
    pub y: u64,
    pub width: u64,
    pub height: u64,
}

impl Region {
    /// A region is well formed if it is not empty and its far edges can be
    /// represented.
    pub open spec fn valid(self) -> bool {
        &&& self.width > 0
        &&& self.height > 0
        &&& self.x + self.width <= u64::MAX
        &&& self.y + self.height <= u64::MAX
    }

    /// Whether the region lies inside the square of the given side whose
    /// top-left corner is the origin.
    pub open spec fn within(self, side: nat) -> bool {
        &&& self.x + self.width <= side
        &&& self.y + self.height <= side
    }

    /// Whether the two regions share at least one cell.
    pub open spec fn intersects(self, other: Region) -> bool {
        &&& self.x < other.x + other.width
        &&& self.x + self.width > other.x
        &&& self.y < other.y + other.height
        &&& self.y + self.height > other.y
    }

    /// The region that consists of the single cell `(x, y)`.
    pub open spec fn cell(x: u64, y: u64) -> Region {
        Region { x, y, width: 1, height: 1 }
    }

    /// Creates a region.
    pub fn new(x: u64, y: u64, width: u64, height: u64) -> (region: Region)
        ensures
            region == (Region { x, y, width, height }),
    {
        Region { x, y, width, height }
    }

    /// Whether the region is well formed.
    pub fn is_valid(&self) -> (b: bool)
        ensures
            b == self.valid(),
    {
        self.width > 0 && self.height > 0 && self.x <= u64::MAX - self.width && self.y <= u64::MAX
            - self.height
    }
}

/// A particle together with the region it was placed on.
#[derive(Clone, Copy, Debug, PartialEq, Eq)]
pub struct Placed {
    pub region: Region,
    pub particle: Particle,
}

/// Why a region was not accepted.
#[derive(Clone, Copy, Debug, PartialEq, Eq, Structural)]
pub enum RegionError {
    /// The region is empty, or its far edge cannot be represented.
    Malformed,
    /// The region does not lie inside the extent of the index.
    OutOfBounds,
}

/// What an index holds: each slot that is in use, with what was placed in it.
pub type Entries = Map<u64, Placed>;

/// The entries that remain once every particle at or beyond `bound` is
/// removed.
pub open spec fn survivors(entries: Entries, bound: i64) -> Entries {
    entries.restrict(Set::new(|slot: u64| !entries[slot].particle.beyond(bound)))
}

/// The entries after one tick: every particle whose region meets `area` is
/// stepped, the others are left as they are.
pub open spec fn advanced(entries: Entries, area: Region, barriers_on: bool, bound: i64, dt: u32) -> Entries {
    Map::new(
        |slot: u64| entries.dom().contains(slot),
        |slot: u64|
            if entries[slot].region.intersects(area) {
                Placed {
                    region: entries[slot].region,
                    particle: entries[slot].particle.stepped(barriers_on, bound, dt),
                }
            } else {
                entries[slot]
            },
    )
}

/// Whether `items` lists every entry exactly once.
pub open spec fn enumerates(items: Seq<(u64, Placed)>, entries: Entries) -> bool {
    &&& entries.dom().finite()
    &&& items.len() == entries.dom().len()
    &&& forall|i: int|
        0 <= i < items.len() ==> entries.dom().contains(#[trigger] items[i].0) && entries[items[i].0]
            == items[i].1
    &&& forall|i: int, j: int|
        0 <= i < j < items.len() ==> #[trigger] items[i].0 != #[trigger] items[j].0
}

/// A quadtree of the `quadtree_rs` crate with `u64` coordinates and
/// particles as values.  The verifier does not look inside: everything
/// known about a tree comes from the functions below.
#[verifier::external_body]
pub struct ParticleTree {
    inner: Quadtree<u64, Particle>,
}

/// The entries of the tree, by the handle that the tree gave to each.
pub uninterp spec fn tree_entries(tree: ParticleTree) -> Entries;

/// The side of the square that the tree covers.
pub uninterp spec fn tree_side(tree: ParticleTree) -> nat;

/// `Quadtree::new`: an empty tree that covers the square of side
/// `2^depth` at the origin.
#[verifier::external_body]
fn tree_new(depth: usize) -> (tree: ParticleTree)
    requires
        depth < 64,
    ensures
        tree_entries(tree) == Entries::empty(),
        tree_side(tree) == pow2(depth as nat),
{
    ParticleTree { inner: Quadtree::new(depth) }
}

/// `Quadtree::insert`: a region that lies inside the square of the tree is
/// stored under a handle that no entry has, and the handle is returned;
/// any other region is refused and the tree stays as it is.
#[verifier::external_body]
fn tree_insert(tree: &mut ParticleTree, region: Region, particle: Particle) -> (slot: Option<u64>)
    requires
        region.valid(),
    ensures
        tree_side(*final(tree)) == tree_side(*old(tree)),
        slot is Some <==> region.within(tree_side(*old(tree))),
        slot is None ==> tree_entries(*final(tree)) == tree_entries(*old(tree)),
        slot is Some ==> !tree_entries(*old(tree)).dom().contains(slot->0),
        slot is Some ==> tree_entries(*final(tree)) == tree_entries(*old(tree)).insert(
            slot->0,
            (Placed { region, particle }),
        ),
{
    let area = AreaBuilder::default()
        .anchor(Point { x: region.x, y: region.y })
        .dimensions((region.width, region.height))
        .build()
        .unwrap();
    tree.inner.insert(area, particle)
}

/// `Quadtree::reset`: every entry is removed; the extent stays.
#[verifier::external_body]
fn tree_reset(tree: &mut ParticleTree)
    ensures
        tree_side(*final(tree)) == tree_side(*old(tree)),
        tree_entries(*final(tree)) == Entries::empty(),
{
    tree.inner.reset();
}

/// `Quadtree::len`: the number of entries.
#[verifier::external_body]
fn tree_len(tree: &ParticleTree) -> (n: usize)
    ensures
        n == tree_entries(*tree).dom().len(),
{
    tree.inner.len()
}

/// `Quadtree::retain`, which in this version of the crate removes the
/// entries for which the closure returns `true` and keeps the others: the
/// particles at or beyond `bound` leave the tree.
#[verifier::external_body]
fn tree_cull(tree: &mut ParticleTree, bound: i64)
    ensures
        tree_side(*final(tree)) == tree_side(*old(tree)),
        tree_entries(*final(tree)) == survivors(tree_entries(*old(tree)), bound),
{
    let _ = tree.inner.retain(|particle| particle.is_beyond(bound));
}

/// `Quadtree::modify`: the closure is applied once to the value of every
/// entry whose region intersects `area`; no entry is added, removed or
/// moved.
#[verifier::external_body]
fn tree_step(tree: &mut ParticleTree, area: Region, barriers_on: bool, bound: i64, dt: u32)
    requires
        area.valid(),
    ensures
        tree_side(*final(tree)) == tree_side(*old(tree)),
        tree_entries(*final(tree)) == advanced(tree_entries(*old(tree)), area, barriers_on, bound, dt),
{
    let area = AreaBuilder::default()
        .anchor(Point { x: area.x, y: area.y })
        .dimensions((area.width, area.height))
        .build()
        .unwrap();
    tree.inner.modify(area, |particle| particle.step(barriers_on, bound, dt));
}

/// `Quadtree::iter`: every entry is yielded once, in an order that the
/// crate leaves open.
#[verifier::external_body]
fn tree_items(tree: &ParticleTree) -> (items: Vec<(u64, Placed)>)
    ensures
        enumerates(items@, tree_entries(*tree)),
{
    tree.inner
        .iter()
        .map(|entry| {
            let region = Region::new(entry.anchor().x(), entry.anchor().y(), entry.width(), entry.height());
            (entry.handle(), Placed { region, particle: *entry.value_ref() })
        })
        .collect()
}

/// The spatial index of an engine.
pub struct SpatialIndex {
    tree: ParticleTree,
}

impl SpatialIndex {
    /// An index holds finitely many entries.
    pub closed spec fn wf(&self) -> bool {
        tree_entries(self.tree).dom().finite()
    }

    /// An index holds finitely many entries.
    pub proof fn lemma_finite(&self)
        requires
            self.wf(),
        ensures
            self@.dom().finite(),
    {
    }

    /// The entries of the index, by slot.
    pub closed spec fn view(&self) -> Entries {
        tree_entries(self.tree)
    }

    /// The side of the square of cells that the index covers.
    pub closed spec fn side(&self) -> nat {
        tree_side(self.tree)
    }

    /// Creates an empty index over the square of side `2^depth`.
    pub fn new(depth: usize) -> (index: SpatialIndex)
        requires
            depth < 64,
        ensures
            index.wf(),
            index@ == Entries::empty(),
            index.side() == pow2(depth as nat),
    {
        SpatialIndex { tree: tree_new(depth) }
    }

    /// Places `particle` on `region`.  A malformed region, and one that
    /// does not lie inside the extent of the index, is refused and leaves
    /// the index as it was.
    pub fn insert(&mut self, region: Region, particle: Particle) -> (result: Result<u64, RegionError>)
        requires
            old(self).wf(),
        ensures
            final(self).wf(),
            final(self).side() == old(self).side(),
            result is Ok <==> region.valid() && region.within(old(self).side()),
            result is Err ==> final(self)@ == old(self)@,
            result is Err ==> result->Err_0 == if region.valid() {
                RegionError::OutOfBounds
            } else {
                RegionError::Malformed
            },
            result is Ok ==> !old(self)@.dom().contains(result->Ok_0),
            result is Ok ==> final(self)@ == old(self)@.insert(result->Ok_0, (Placed { region, particle })),
    {
        if !region.is_valid() {
            return Err(RegionError::Malformed);
        }
        match tree_insert(&mut self.tree, region, particle) {
            Some(slot) => Ok(slot),
            None => Err(RegionError::OutOfBounds),
        }
    }

    /// Removes every entry.
    pub fn reset(&mut self)
        ensures
            final(self).wf(),
            final(self).side() == old(self).side(),
            final(self)@ == Entries::empty(),
    {
        tree_reset(&mut self.tree);
    }

    /// The number of entries.
    pub fn len(&self) -> (n: usize)
        ensures
            n == self@.dom().len(),
    {
        tree_len(&self.tree)
    }

    /// Removes every particle that is at or beyond `bound`.
    pub fn cull(&mut self, bound: i64)
        requires
            old(self).wf(),
        ensures
            final(self).wf(),
            final(self).side() == old(self).side(),
            final(self)@ == survivors(old(self)@, bound),
    {
        tree_cull(&mut self.tree, bound);
        proof {
            vstd::set_lib::lemma_len_subset(final(self)@.dom(), old(self)@.dom());
        }
    }

    /// Steps every particle whose region meets `area`.
    pub fn step_in(&mut self, area: Region, barriers_on: bool, bound: i64, dt: u32)
        requires
            old(self).wf(),
            area.valid(),
        ensures
            final(self).wf(),
            final(self).side() == old(self).side(),
            final(self)@ == advanced(old(self)@, area, barriers_on, bound, dt),
    {
        tree_step(&mut self.tree, area, barriers_on, bound, dt);
        assert(final(self)@.dom() =~= old(self)@.dom());
    }

    /// The entries, each with its slot, in no particular order.
    pub fn entries(&self) -> (items: Vec<(u64, Placed)>)
        ensures
            enumerates(items@, self@),
    {
        tree_items(&self.tree)
    }
}

} // verus!
