//! Shapes and positions of dense grids, and the row-major numbering of
//! positions.

use vstd::prelude::*;

verus! {

/// The number of positions of a grid with the given extents: their product.
pub open spec fn volume(shape: Seq<usize>) -> nat
    decreases shape.len(),
{
    if shape.len() == 0 {
        1
    } else {
        volume(shape.drop_last()) * (shape.last() as nat)
    }
}

/// An extent as a factor of the product of the non-zero extents: itself, or
/// one if it is zero.
pub open spec fn nonzero_factor(extent: usize) -> nat {
    if extent == 0 {
        1
    } else {
        extent as nat
    }
}

/// The product of the extents that are not zero.
pub open spec fn nonzero_volume(shape: Seq<usize>) -> nat
    decreases shape.len(),
{
    if shape.len() == 0 {
        1
    } else {
        nonzero_volume(shape.drop_last()) * nonzero_factor(shape.last())
    }
}

/// A shape that a grid can be built with: the product of its non-zero
/// extents is at most `isize::MAX`.
pub open spec fn shape_fits(shape: Seq<usize>) -> bool {
    nonzero_volume(shape) <= isize::MAX
}

/// `index` names a position of a grid with the given extents: it has one
/// entry for each axis, and each entry is below the extent of its axis.
pub open spec fn in_bounds(shape: Seq<usize>, index: Seq<usize>) -> bool {
    &&& index.len() == shape.len()
    &&& forall|k: int| 0 <= k < shape.len() ==> index[k] < shape[k]
}

/// The place of `index` when all positions are listed in row-major order:
/// the last axis varies fastest, the first slowest.
pub open spec fn row_major_offset(shape: Seq<usize>, index: Seq<usize>) -> nat
    recommends
        index.len() == shape.len(),
    decreases shape.len(),
{
    if shape.len() == 0 || index.len() == 0 {
        0
    } else {
        row_major_offset(shape.drop_last(), index.drop_last()) * (shape.last() as nat) + (
        index.last() as nat)
    }
}

/// The volume is at most the product of the non-zero extents, which is at
/// least one.
pub proof fn lemma_volume_bound(shape: Seq<usize>)
    ensures
        volume(shape) <= nonzero_volume(shape),
        nonzero_volume(shape) >= 1,
    decreases shape.len(),
{
    if shape.len() > 0 {
        lemma_volume_bound(shape.drop_last());
        let v = volume(shape.drop_last());
        let z = nonzero_volume(shape.drop_last());
        let d = shape.last() as nat;
        let n = nonzero_factor(shape.last());
        assert(v * d <= z * n && z * n >= 1) by (nonlinear_arith)
            requires
                v <= z,
                z >= 1,
                n >= 1,
                d <= n,
        ;
    }
}

/// The product of the non-zero extents of the first `k` axes is at most that
/// of all axes.
pub proof fn lemma_nonzero_volume_prefix(shape: Seq<usize>, k: int)
    requires
        0 <= k <= shape.len(),
    ensures
        nonzero_volume(shape.take(k)) <= nonzero_volume(shape),
    decreases shape.len() - k,
{
    if k == shape.len() {
        assert(shape.take(k) =~= shape);
    } else {
        lemma_nonzero_volume_prefix(shape, k + 1);
        let t = shape.take(k + 1);
        assert(t.drop_last() =~= shape.take(k));
        lemma_volume_bound(shape.take(k));
        let z = nonzero_volume(shape.take(k));
        let n = nonzero_factor(t.last());
        assert(z * n >= z) by (nonlinear_arith)
            requires
                z >= 1,
                n >= 1,
        ;
    }
}

/// The row-major place of a position within bounds is below the volume.
pub proof fn lemma_offset_below_volume(shape: Seq<usize>, index: Seq<usize>)
    requires
        in_bounds(shape, index),
    ensures
        row_major_offset(shape, index) < volume(shape),
    decreases shape.len(),
{
    if shape.len() > 0 {
        lemma_offset_below_volume(shape.drop_last(), index.drop_last());
        let o = row_major_offset(shape.drop_last(), index.drop_last());
        let v = volume(shape.drop_last());
        let d = shape.last() as nat;
        let i = index.last() as nat;
        assert(o < v && i < d ==> o * d + i < v * d) by (nonlinear_arith);
    }
}

/// In two dimensions the row-major place of `(x, y)` in a grid of extents
/// `(w, h)` is `x * h + y`, and the grid has `w * h` positions.
pub proof fn lemma_row_major_2d(w: usize, h: usize, x: usize, y: usize)
    ensures
        volume(seq![w, h]) == w * h,
        nonzero_volume(seq![w, h]) == nonzero_factor(w) * nonzero_factor(h),
        row_major_offset(seq![w, h], seq![x, y]) == x * h + y,
{
    let shape = seq![w, h];
    let index = seq![x, y];
    assert(shape.drop_last() =~= seq![w]);
    assert(index.drop_last() =~= seq![x]);
    assert(seq![w].drop_last() =~= Seq::<usize>::empty());
    assert(seq![x].drop_last() =~= Seq::<usize>::empty());
    reveal_with_fuel(volume, 3);
    reveal_with_fuel(row_major_offset, 3);
    reveal_with_fuel(nonzero_volume, 3);
    assert(nonzero_volume(seq![w]) == nonzero_factor(w)) by (nonlinear_arith)
        requires
            nonzero_volume(seq![w]) == 1 * nonzero_factor(w),
    ;
    assert(volume(seq![w]) == w) by (nonlinear_arith)
        requires
            volume(seq![w]) == 1 * (w as nat),
    ;
    assert(row_major_offset(seq![w], seq![x]) == x) by (nonlinear_arith)
        requires
            row_major_offset(seq![w], seq![x]) == 0 * (w as nat) + (x as nat),
    ;
}

/// In three dimensions the row-major place of `(x, y, z)` in a grid of
/// extents `(w, h, d)` is `(x * h + y) * d + z`, and the grid has
/// `w * h * d` positions.
pub proof fn lemma_row_major_3d(w: usize, h: usize, d: usize, x: usize, y: usize, z: usize)
    ensures
        volume(seq![w, h, d]) == w * h * d,
        nonzero_volume(seq![w, h, d]) == nonzero_factor(w) * nonzero_factor(h) * nonzero_factor(d),
        row_major_offset(seq![w, h, d], seq![x, y, z]) == (x * h + y) * d + z,
{
    lemma_row_major_2d(w, h, x, y);
    assert(seq![w, h, d].drop_last() =~= seq![w, h]);
    assert(seq![x, y, z].drop_last() =~= seq![x, y]);
}

/// Row-major order: a step along the last axis moves to the next place.
pub proof fn lemma_last_axis_fastest(shape: Seq<usize>, index: Seq<usize>, next: Seq<usize>)
    requires
        shape.len() > 0,
        index.len() == shape.len(),
        next.len() == shape.len(),
        next.drop_last() == index.drop_last(),
        next.last() == index.last() + 1,
    ensures
        row_major_offset(shape, next) == row_major_offset(shape, index) + 1,
{
}

/// Whether a grid can be built with the given extents.
pub fn is_valid_shape(shape: &[usize]) -> (ok: bool)
    ensures
        ok == shape_fits(shape@),
{
    let limit: usize = isize::MAX as usize;
    let mut product: usize = 1;
    let mut k: usize = 0;
    assert(shape@.take(0).len() == 0);
    while k < shape.len()
        invariant
            k <= shape@.len(),
            limit == isize::MAX,
            product == nonzero_volume(shape@.take(k as int)),
            1 <= product <= limit,
        decreases shape@.len() - k,
    {
        let d = shape[k];
        proof {
            let t = shape@.take(k + 1);
            assert(t.drop_last() =~= shape@.take(k as int));
            assert(t.last() == d);
            lemma_nonzero_volume_prefix(shape@, k + 1);
        }
        assert(nonzero_volume(shape@.take(k + 1)) == product * nonzero_factor(d));
        if d != 0 {
            if product > limit / d {
                assert(product * d > limit) by (nonlinear_arith)
                    requires
                        d > 0,
                        product > limit / d,
                ;
                return false;
            }
            assert(1 <= product * d <= limit) by (nonlinear_arith)
                requires
                    d > 0,
                    1 <= product <= limit / d,
            ;
            product = product * d;
        }
        k += 1;
    }
    assert(shape@.take(k as int) =~= shape@);
    true
}

/// The number of positions of a grid with the given extents.
pub(crate) fn shape_volume(shape: &[usize]) -> (n: usize)
    requires
        shape_fits(shape@),
    ensures
        n == volume(shape@),
{
    let mut n: usize = 1;
    let mut k: usize = 0;
    assert(shape@.take(0).len() == 0);
    while k < shape.len()
        invariant
            k <= shape@.len(),
            n == volume(shape@.take(k as int)),
            shape_fits(shape@),
        decreases shape@.len() - k,
    {
        proof {
            let t = shape@.take(k + 1);
            assert(t.drop_last() =~= shape@.take(k as int));
            lemma_nonzero_volume_prefix(shape@, k + 1);
            lemma_volume_bound(t);
        }
        n = n * shape[k];
        k += 1;
    }
    assert(shape@.take(k as int) =~= shape@);
    n
}

} // verus!
