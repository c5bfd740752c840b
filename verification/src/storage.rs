//! Dense storage of image elements, addressed by position.

use crate::element::{mapped_by, Component, Element};
use crate::grid::{
    grid_entries, grid_extents, grid_from_shape_vec, grid_get, grid_iter, grid_shape, Grid,
};
use crate::shape::{
    in_bounds, lemma_offset_below_volume, lemma_volume_bound, row_major_offset, shape_fits,
    shape_volume, volume,
};
use vstd::prelude::*;

verus! {

/// The numbers `0, 1, .., n - 1` in order.
pub open spec fn identity_slots(n: nat) -> Seq<usize> {
    Seq::new(n, |i: int| i as usize)
}

/// Storage for a dense grid of image elements with `N` axes.
///
/// The elements lie in one buffer in row-major order. A dense array numbers
/// the positions: at each position it holds the place of that position's
/// element in the buffer.
pub struct ImageStorage<E: Element, const N: usize> {
    grid: Grid,
    cells: Vec<E>,
}

/// Image storage for two-dimensional images.
pub type Image2D<E> = ImageStorage<E, 2>;

/// Image storage for three-dimensional image volumes.
pub type Image3D<E> = ImageStorage<E, 3>;

impl<E: Element, const N: usize> ImageStorage<E, N> {
    /// The extents of the storage, one for each axis.
    pub closed spec fn shape(&self) -> Seq<usize> {
        grid_extents(self.grid)
    }

    /// The elements of the storage in row-major order.
    pub closed spec fn cells(&self) -> Seq<E> {
        self.cells@
    }

    /// The element at a position.
    pub open spec fn at(&self, index: Seq<usize>) -> E
        recommends
            in_bounds(self.shape(), index),
    {
        self.cells()[row_major_offset(self.shape(), index) as int]
    }

    /// What holds of every storage: it has `N` axes, a shape that a grid can
    /// be built with, and one element for each position.
    pub closed spec fn wf(&self) -> bool {
        &&& grid_extents(self.grid).len() == N
        &&& shape_fits(grid_extents(self.grid))
        &&& self.cells@.len() == volume(grid_extents(self.grid))
        &&& grid_entries(self.grid) == identity_slots(self.cells@.len())
    }

    /// A storage has `N` axes and one element for each position, and the
    /// elements lie in row-major order: the element at a position within
    /// bounds is found at the position's row-major place.
    pub proof fn lemma_wf(&self)
        requires
            self.wf(),
        ensures
            self.shape().len() == N,
            shape_fits(self.shape()),
            self.cells().len() == volume(self.shape()),
            forall|index: Seq<usize>|
                in_bounds(self.shape(), index) ==> 0 <= #[trigger] row_major_offset(
                    self.shape(),
                    index,
                ) < self.cells().len(),
    {
        assert forall|index: Seq<usize>| in_bounds(self.shape(), index) implies 0
            <= #[trigger] row_major_offset(self.shape(), index) < self.cells().len() by {
            lemma_offset_below_volume(self.shape(), index);
        }
    }

    /// Builds the storage that holds the given elements in row-major order.
    fn from_cells(shape: [usize; N], cells: Vec<E>) -> (s: Self)
        requires
            shape_fits(shape@),
            cells@.len() == volume(shape@),
        ensures
            s.wf(),
            s.shape() == shape@,
            s.cells() == cells@,
    {
        let n = cells.len();
        let mut slots: Vec<usize> = Vec::new();
        let mut i: usize = 0;
        while i < n
            invariant
                i <= n,
                slots@ == identity_slots(i as nat),
            decreases n - i,
        {
            slots.push(i);
            assert(slots@ =~= identity_slots((i + 1) as nat));
            i += 1;
        }
        let grid = grid_from_shape_vec(&shape, slots);
        ImageStorage { grid: grid.unwrap(), cells }
    }

    /// A storage of the given shape in which every position holds a copy of
    /// `elem`.
    pub fn from_elem(shape: [usize; N], elem: E) -> (s: Self)
        requires
            shape_fits(shape@),
        ensures
            s.wf(),
            s.shape() == shape@,
            s.cells() == Seq::new(volume(shape@), |i: int| elem),
            forall|index: Seq<usize>| in_bounds(shape@, index) ==> #[trigger] s.at(index) == elem,
    {
        assert forall|index: Seq<usize>| in_bounds(shape@, index) implies 0 <= #[trigger] row_major_offset(
            shape@,
            index,
        ) < volume(shape@) by {
            lemma_offset_below_volume(shape@, index);
        }
        let n = shape_volume(&shape);
        let mut cells: Vec<E> = Vec::new();
        let mut i: usize = 0;
        while i < n
            invariant
                i <= n,
                cells@ == Seq::new(i as nat, |j: int| elem),
            decreases n - i,
        {
            cells.push(elem);
            assert(cells@ =~= Seq::new((i + 1) as nat, |j: int| elem));
            i += 1;
        }
        Self::from_cells(shape, cells)
    }

    /// A storage of the given shape in which every channel of every element
    /// is zero.
    pub fn empty(shape: [usize; N]) -> (s: Self)
        requires
            shape_fits(shape@),
        ensures
            s.wf(),
            s.shape() == shape@,
            s.cells().len() == volume(shape@),
            forall|i: int|
                0 <= i < s.cells().len() ==> (#[trigger] s.cells()[i]).spec_channels() == Seq::new(
                    E::spec_num_channels(),
                    |j: int| E::Component::spec_zero(),
                ),
    {
        Self::from_elem(shape, E::splat(E::Component::zero()))
    }

    /// A storage of the given shape in which every position holds a default
    /// element, each made by a call of its own.
    pub fn default(shape: [usize; N]) -> (s: Self) where E: Default
        requires
            shape_fits(shape@),
        ensures
            s.wf(),
            s.shape() == shape@,
            s.cells().len() == volume(shape@),
            forall|i: int|
                0 <= i < s.cells().len() ==> call_ensures(E::default, (), #[trigger] s.cells()[i]),
    {
        let n = shape_volume(&shape);
        let mut cells: Vec<E> = Vec::new();
        let mut i: usize = 0;
        while i < n
            invariant
                i <= n,
                cells@.len() == i,
                forall|j: int| 0 <= j < i ==> call_ensures(E::default, (), #[trigger] cells@[j]),
            decreases n - i,
        {
            cells.push(E::default());
            i += 1;
        }
        Self::from_cells(shape, cells)
    }

    /// The extents of the storage, one for each axis.
    pub fn dimensions(&self) -> (d: &[usize])
        requires
            self.wf(),
        ensures
            d@ == self.shape(),
            d@.len() == N,
    {
        grid_shape(&self.grid)
    }

    /// The element at `index`, if `index` is within bounds on every axis.
    pub fn get_element(&self, index: [usize; N]) -> (r: Option<&E>)
        requires
            self.wf(),
        ensures
            in_bounds(self.shape(), index@) ==> r == Some(&self.at(index@)),
            !in_bounds(self.shape(), index@) ==> r.is_none(),
    {
        let position = index.as_slice();
        match grid_get(&self.grid, position) {
            Some(slot) => {
                proof {
                    lemma_offset_below_volume(self.shape(), index@);
                    let place = row_major_offset(self.shape(), index@) as int;
                    lemma_volume_bound(self.shape());
                    assert(identity_slots(self.cells@.len())[place] == place);
                }
                Some(&self.cells[slot])
            },
            None => None,
        }
    }

    /// The element at `index`, for writing, if `index` is within bounds on
    /// every axis. What is written through the reference is the element at
    /// that position afterwards; every other position keeps its element.
    pub fn get_element_mut(&mut self, index: [usize; N]) -> (r: Option<&mut E>)
        requires
            old(self).wf(),
        ensures
            final(self).wf(),
            final(self).shape() == old(self).shape(),
            match r {
                Some(e) => {
                    &&& in_bounds(old(self).shape(), index@)
                    &&& *e == old(self).at(index@)
                    &&& final(self).cells() == old(self).cells().update(
                        row_major_offset(old(self).shape(), index@) as int,
                        *final(e),
                    )
                },
                None => {
                    &&& !in_bounds(old(self).shape(), index@)
                    &&& final(self).cells() == old(self).cells()
                },
            },
    {
        let position = index.as_slice();
        match grid_get(&self.grid, position) {
            Some(slot) => {
                proof {
                    let place = row_major_offset(self.shape(), index@) as int;
                    lemma_offset_below_volume(self.shape(), index@);
                    lemma_volume_bound(self.shape());
                    assert(identity_slots(self.cells@.len())[place] == place);
                }
                Some(&mut self.cells[slot])
            },
            None => None,
        }
    }

    /// A cursor over the elements of the storage, for writing, in row-major
    /// order. When the cursor is gone, the storage holds what the cursor's
    /// buffer holds then, and its shape is as before.
    pub fn elements_mut(&mut self) -> (it: ElementsMut<'_, E>)
        requires
            old(self).wf(),
        ensures
            it.wf(),
            it.remaining() == old(self).cells(),
            it.pos == 0,
            it.cells@ == old(self).cells(),
            final(it.cells)@.len() == old(self).cells().len() ==> final(self).wf(),
            final(self).shape() == old(self).shape(),
            final(self).cells() == final(it.cells)@,
    {
        let order = grid_iter(&self.grid);
        proof {
            lemma_volume_bound(self.shape());
            assert forall|i: int| 0 <= i < order@.len() implies (#[trigger] order@[i]) == i by {
                assert(identity_slots(self.cells@.len())[i] == i);
            }
        }
        let it = ElementsMut { cells: self.cells.as_mut_slice(), order, pos: 0 };
        assert(it.remaining() =~= old(self).cells@);
        it
    }

    /// Passes every channel of every element through `f`, visiting the
    /// elements through [`ImageStorage::elements_mut`].
    pub fn apply<F>(&mut self, f: F) where F: Fn(E::Component) -> E::Component
        requires
            old(self).wf(),
            forall|i: int, j: int|
                0 <= i < old(self).cells().len() && 0 <= j < old(self).cells()[i].spec_channels().len()
                    ==> call_requires(f, (#[trigger] old(self).cells()[i].spec_channels()[j],)),
        ensures
            final(self).wf(),
            final(self).shape() == old(self).shape(),
            final(self).cells().len() == old(self).cells().len(),
            forall|i: int|
                0 <= i < old(self).cells().len() ==> mapped_by(
                    f,
                    old(self).cells()[i].spec_channels(),
                    #[trigger] final(self).cells()[i].spec_channels(),
                ),
    {
        let mut it = self.elements_mut();
        loop
            invariant
                it.wf(),
                it.cells@.len() == old(self).cells().len(),
                final(it.cells)@.len() == old(self).cells().len() ==> after_borrow(*self).wf(),
                after_borrow(*self).shape() == old(self).shape(),
                after_borrow(*self).cells() == final(it.cells)@,
                forall|i: int, j: int|
                    0 <= i < old(self).cells().len() && 0 <= j < old(self).cells()[i].spec_channels().len()
                        ==> call_requires(f, (#[trigger] old(self).cells()[i].spec_channels()[j],)),
                forall|i: int|
                    0 <= i < it.pos ==> mapped_by(
                        f,
                        old(self).cells()[i].spec_channels(),
                        #[trigger] it.cells@[i].spec_channels(),
                    ),
                forall|i: int| it.pos <= i < it.cells@.len() ==> it.cells@[i] == old(self).cells()[i],
            ensures
                it.pos == it.cells@.len(),
            decreases it.cells@.len() - it.pos,
        {
            match it.next() {
                Some(e) => {
                    e.apply(&f);
                },
                None => {
                    break ;
                },
            }
        }
    }

    /// A cursor over the elements of the storage, in row-major order.
    pub fn elements(&self) -> (it: Elements<'_, E>)
        requires
            self.wf(),
        ensures
            it.wf(),
            it.remaining() == self.cells(),
            it.remaining().len() == volume(self.shape()),
    {
        let order = grid_iter(&self.grid);
        proof {
            lemma_volume_bound(self.shape());
            assert forall|i: int| 0 <= i < order@.len() implies (#[trigger] order@[i]) == i by {
                assert(identity_slots(self.cells@.len())[i] == i);
            }
        }
        let it = Elements { cells: &self.cells, order, pos: 0 };
        assert(it.remaining() =~= self.cells@);
        it
    }
}

/// A cursor that hands out the elements of a storage one by one, in
/// row-major order.
pub struct Elements<'a, E> {
    cells: &'a Vec<E>,
    order: Vec<usize>,
    pos: usize,
}

impl<'a, E> Elements<'a, E> {
    /// What holds of every cursor: each place it will visit is a place in
    /// the buffer.
    pub closed spec fn wf(&self) -> bool {
        &&& self.pos <= self.order@.len()
        &&& forall|i: int| 0 <= i < self.order@.len() ==> (#[trigger] self.order@[i]) < self.cells@.len()
    }

    /// The elements that the cursor has yet to hand out, in order.
    pub closed spec fn remaining(&self) -> Seq<E> {
        Seq::new(
            (self.order@.len() - self.pos) as nat,
            |i: int| self.cells@[self.order@[self.pos + i] as int],
        )
    }

    /// The next element, if any is left.
    pub fn next(&mut self) -> (r: Option<&'a E>)
        requires
            old(self).wf(),
        ensures
            final(self).wf(),
            old(self).remaining().len() == 0 ==> r.is_none()
                && final(self).remaining() == old(self).remaining(),
            old(self).remaining().len() > 0 ==> r == Some(&old(self).remaining()[0])
                && final(self).remaining() == old(self).remaining().drop_first(),
    {
        if self.pos < self.order.len() {
            let slot = self.order[self.pos];
            let cells: &'a Vec<E> = self.cells;
            self.pos = self.pos + 1;
            assert(self.remaining() =~= old(self).remaining().drop_first());
            Some(&cells[slot])
        } else {
            None
        }
    }
}

/// A cursor that hands out the elements of a storage one by one for writing,
/// in row-major order.
///
/// The fields are public so that contracts can speak of the buffer as it
/// will be once the cursor is gone: `final(it.cells)@`.
pub struct ElementsMut<'a, E> {
    /// The buffer of the storage that the cursor was made from.
    pub cells: &'a mut [E],
    /// The places in the buffer in the order of the visit.
    pub order: Vec<usize>,
    /// How many elements the cursor has handed out.
    pub pos: usize,
}

impl<'a, E> ElementsMut<'a, E> {
    /// What holds of every cursor: it visits each place of the buffer once,
    /// from the first to the last, and has not gone past the end.
    pub open spec fn wf(&self) -> bool {
        &&& self.pos <= self.order@.len()
        &&& self.order@.len() == self.cells@.len()
        &&& forall|i: int| 0 <= i < self.order@.len() ==> (#[trigger] self.order@[i]) == i
    }

    /// The elements that the cursor has yet to hand out, in order.
    pub open spec fn remaining(&self) -> Seq<E> {
        self.cells@.subrange(self.pos as int, self.cells@.len() as int)
    }

    /// The next element, if any is left. What is written through the
    /// reference is the element at that place afterwards; every other place
    /// keeps its element.
    pub fn next(&mut self) -> (r: Option<&mut E>)
        requires
            old(self).wf(),
        ensures
            final(self).wf(),
            final(final(self).cells)@ == final(old(self).cells)@,
            match r {
                Some(e) => {
                    &&& old(self).remaining().len() > 0
                    &&& final(self).cells@ == old(self).cells@.update(old(self).pos as int, *final(e))
                    &&& *e == old(self).remaining()[0]
                    &&& final(self).remaining() == old(self).remaining().drop_first()
                    &&& final(self).pos == old(self).pos + 1
                },
                None => {
                    &&& old(self).remaining().len() == 0
                    &&& final(self).remaining() == old(self).remaining()
                    &&& *final(self) == *old(self)
                },
            },
    {
        if self.pos < self.order.len() {
            let slot = self.order[self.pos];
            self.pos = self.pos + 1;
            assert(self.remaining() =~= old(self).remaining().drop_first());
            Some(&mut self.cells[slot])
        } else {
            None
        }
    }
}

} // verus!
