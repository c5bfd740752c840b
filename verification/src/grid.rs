//! The dense array that numbers the positions of a storage.
//!
//! The array itself comes from the `ndarray` crate. Nothing in this file is
//! proved: each item states what the crate's array does, and the rest of the
//! library is proved on top of these statements.

use crate::shape::{in_bounds, nonzero_volume, row_major_offset, volume};
use vstd::prelude::*;

verus! {

/// A dense array of `usize` items with any number of axes: an
/// `ndarray::ArrayD<usize>`. What it holds is known only through
/// [`grid_extents`] and [`grid_entries`].
#[verifier::external_body]
pub struct Grid {
    inner: ndarray::ArrayD<usize>,
}

/// The extents of an array, one for each axis, as `shape()` reports them.
pub uninterp spec fn grid_extents(grid: Grid) -> Seq<usize>;

/// The items of an array in its logical order, the order in which `iter()`
/// visits them: the last index varies fastest.
pub uninterp spec fn grid_entries(grid: Grid) -> Seq<usize>;

/// Calls `ndarray::ArrayBase::from_shape_vec` with a plain list of extents.
///
/// The call succeeds exactly when the product of the non-zero extents is at
/// most `isize::MAX` and the vector has one item for each position. The array
/// then has the given extents and holds the vector's items in row-major
/// order.
#[verifier::external_body]
pub(crate) fn grid_from_shape_vec(shape: &[usize], entries: Vec<usize>) -> (r: Option<Grid>)
    ensures
        r.is_some() <==> (nonzero_volume(shape@) <= isize::MAX && volume(shape@)
            == entries@.len()),
        r matches Some(g) ==> grid_extents(g) == shape@ && grid_entries(g) == entries@,
{
    match ndarray::ArrayD::from_shape_vec(ndarray::IxDyn(shape), entries) {
        Ok(inner) => Some(Grid { inner }),
        Err(_) => None,
    }
}

/// Calls `ndarray::ArrayBase::shape`: the extents of the array.
#[verifier::external_body]
pub(crate) fn grid_shape(grid: &Grid) -> (r: &[usize])
    ensures
        r@ == grid_extents(*grid),
{
    grid.inner.shape()
}

/// Calls `ndarray::ArrayBase::get` with a slice as the index.
///
/// The result is the item at the position, taken from the items in logical
/// order at the position's row-major place, if the index has one entry for
/// each axis and each entry is below its extent. Otherwise there is none.
#[verifier::external_body]
pub(crate) fn grid_get(grid: &Grid, index: &[usize]) -> (r: Option<usize>)
    ensures
        in_bounds(grid_extents(*grid), index@) ==> r == Some(
            grid_entries(*grid)[row_major_offset(grid_extents(*grid), index@) as int],
        ),
        !in_bounds(grid_extents(*grid), index@) ==> r.is_none(),
{
    grid.inner.get(index).copied()
}

/// Calls `ndarray::ArrayBase::iter` and collects what it visits: the items of
/// the array in logical order.
#[verifier::external_body]
pub(crate) fn grid_iter(grid: &Grid) -> (r: Vec<usize>)
    ensures
        r@ == grid_entries(*grid),
{
    grid.inner.iter().copied().collect()
}

} // verus!
