//! A dense two-dimensional grid with a fixed layout orientation.
//!
//! The orientation is part of the grid's type: an [`AdjacentX`] grid lays
//! out a row (fixed `y`) contiguously, an [`AdjacentY`] grid a column
//! (fixed `x`). Indexing is bounds checked by contract, and the backing
//! store always holds exactly `width * height` elements.

use vstd::prelude::*;
use core::marker::PhantomData;

verus! {

/// A layout orientation: how a coordinate pair maps to a slot of the
/// backing store.
pub trait Adjacency {
    /// The backing slot of `(x, y)` in a grid of the given dimensions.
    spec fn slot_spec(width: int, height: int, x: int, y: int) -> int;

    /// The slot of an in-bounds coordinate is in bounds, and two distinct
    /// in-bounds coordinates never share a slot.
    proof fn lemma_slot_in_range(width: int, height: int, x: int, y: int)
        requires
            0 <= x < width,
            0 <= y < height,
        ensures
            0 <= Self::slot_spec(width, height, x, y) < width * height,
    ;

    /// Computes the backing slot of an in-bounds coordinate.
    fn slot(width: usize, height: usize, x: usize, y: usize) -> (r: usize)
        requires
            x < width,
            y < height,
            width * height <= usize::MAX,
        ensures
            r == Self::slot_spec(width as int, height as int, x as int, y as int),
            r < width * height,
    ;
}

/// Marks the orientation in which two cells adjacent in `x` are adjacent
/// in the backing store: a cell at slot `n` has `(x + 1, y)` at `n + 1`.
#[derive(Copy, Clone, Debug, PartialEq, Eq, Structural, Default)]
pub struct AdjacentX;

/// Marks the orientation in which two cells adjacent in `y` are adjacent
/// in the backing store: a cell at slot `n` has `(x, y + 1)` at `n + 1`.
#[derive(Copy, Clone, Debug, PartialEq, Eq, Structural, Default)]
pub struct AdjacentY;

impl Adjacency for AdjacentX {
    open spec fn slot_spec(width: int, height: int, x: int, y: int) -> int {
        width * y + x
    }

    proof fn lemma_slot_in_range(width: int, height: int, x: int, y: int) {
        assert(0 <= width * y + x < width * height) by (nonlinear_arith)
            requires
                0 <= x < width,
                0 <= y < height,
        ;
    }

    fn slot(width: usize, height: usize, x: usize, y: usize) -> (r: usize) {
        proof {
            Self::lemma_slot_in_range(width as int, height as int, x as int, y as int);
        }
        width * y + x
    }
}

impl Adjacency for AdjacentY {
    open spec fn slot_spec(width: int, height: int, x: int, y: int) -> int {
        height * x + y
    }

    proof fn lemma_slot_in_range(width: int, height: int, x: int, y: int) {
        assert(0 <= height * x + y < width * height) by (nonlinear_arith)
            requires
                0 <= x < width,
                0 <= y < height,
        ;
    }

    fn slot(width: usize, height: usize, x: usize, y: usize) -> (r: usize) {
        proof {
            Self::lemma_slot_in_range(width as int, height as int, x as int, y as int);
        }
        height * x + y
    }
}

/// A dense `width` by `height` grid of `T`, with orientation `O` fixed at
/// the type level.
#[derive(Debug)]
pub struct Grid<T, O> {
    data: Vec<T>,
    width: usize,
    height: usize,
    _orientation: PhantomData<O>,
}

/// A grid whose rows are contiguous.
pub type GridX<T> = Grid<T, AdjacentX>;

/// A grid whose columns are contiguous.
pub type GridY<T> = Grid<T, AdjacentY>;

impl<T, O> View for Grid<T, O> {
    type V = Seq<T>;

    /// The backing store, in layout order.
    closed spec fn view(&self) -> Seq<T> {
        self.data@
    }
}

impl<T, O: Adjacency> Grid<T, O> {
    /// The width of the grid.
    pub closed spec fn spec_width(self) -> usize {
        self.width
    }

    /// The height of the grid.
    pub closed spec fn spec_height(self) -> usize {
        self.height
    }

    /// The backing store holds exactly one element per cell.
    pub open spec fn wf(self) -> bool {
        self@.len() == self.spec_width() * self.spec_height()
    }

    /// The element at `(x, y)`.
    pub open spec fn spec_at(self, x: int, y: int) -> T {
        self@[O::slot_spec(self.spec_width() as int, self.spec_height() as int, x, y)]
    }

    /// Builds a grid of the given dimensions from the first
    /// `width * height` items; items beyond those are ignored. There must
    /// be at least that many.
    pub fn from_iter(items: Vec<T>, width: usize, height: usize) -> (r: Self)
        requires
            width * height <= usize::MAX,
            items@.len() >= width * height,
        ensures
            r.spec_width() == width,
            r.spec_height() == height,
            r.wf(),
            r@ == items@.take((width * height) as int),
    {
        let ghost orig = items@;
        let mut items = items;
        let target = width * height;
        items.truncate(target);
        proof {
            assert(items@ =~= orig.take(target as int));
        }
        Grid { data: items, width, height, _orientation: PhantomData }
    }

    /// Overwrites this grid's cells with another grid's, cell for cell.
    /// The dimensions must match.
    pub fn copy_grid(&mut self, other: &Self) where T: Copy
        requires
            old(self).wf(),
            other.wf(),
            old(self).spec_width() == other.spec_width(),
            old(self).spec_height() == other.spec_height(),
        ensures
            final(self).spec_width() == old(self).spec_width(),
            final(self).spec_height() == old(self).spec_height(),
            final(self).wf(),
            final(self)@ == other@,
    {
        let n = other.data.len();
        for i in 0..n
            invariant
                n == other@.len(),
                self@.len() == n,
                self.spec_width() == other.spec_width(),
                self.spec_height() == other.spec_height(),
                forall|j: int| 0 <= j < i ==> self@[j] == other@[j],
        {
            let v = other.data[i];
            self.data[i] = v;
        }
        proof {
            assert(self@ =~= other@);
        }
    }

    /// Returns the grid's dimensions as `(width, height)`.
    pub fn dimensions(&self) -> (r: (usize, usize))
        ensures
            r.0 == self.spec_width(),
            r.1 == self.spec_height(),
    {
        (self.width, self.height)
    }

    /// Borrows the backing store in layout order.
    pub fn iter(&self) -> (r: &Vec<T>)
        ensures
            r@ == self@,
    {
        &self.data
    }

    /// Borrows the element at the in-bounds coordinate `(x, y)`.
    pub fn index(&self, x: usize, y: usize) -> (r: &T)
        requires
            self.wf(),
            x < self.spec_width(),
            y < self.spec_height(),
        ensures
            *r == self.spec_at(x as int, y as int),
    {
        proof {
            vstd::std_specs::vec::axiom_spec_len(&self.data);
        }
        let i = O::slot(self.width, self.height, x, y);
        &self.data[i]
    }

    /// Replaces the element at the in-bounds coordinate `(x, y)`.
    pub fn set(&mut self, x: usize, y: usize, value: T)
        requires
            old(self).wf(),
            x < old(self).spec_width(),
            y < old(self).spec_height(),
        ensures
            final(self).spec_width() == old(self).spec_width(),
            final(self).spec_height() == old(self).spec_height(),
            final(self).wf(),
            final(self)@ == old(self)@.update(
                O::slot_spec(
                    old(self).spec_width() as int,
                    old(self).spec_height() as int,
                    x as int,
                    y as int,
                ),
                value,
            ),
    {
        proof {
            vstd::std_specs::vec::axiom_spec_len(&self.data);
        }
        let i = O::slot(self.width, self.height, x, y);
        self.data[i] = value;
    }
}

} // verus!
