//! Raster order: row-major pixel numbering from the top-left corner.

use vstd::prelude::*;
use vstd::arithmetic::div_mod::{lemma_fundamental_div_mod, lemma_fundamental_div_mod_converse};

verus! {

/// Position in raster order of the pixel at column `x` of row `y`, in a
/// frame `width` pixels wide.
pub open spec fn raster_index(width: nat, x: nat, y: nat) -> nat {
    y * width + x
}

/// Column of the pixel at position `i`.
pub open spec fn column_of(width: nat, i: nat) -> nat {
    i % width
}

/// Row of the pixel at position `i`.
pub open spec fn row_of(width: nat, i: nat) -> nat {
    i / width
}

/// Every pixel of a frame has a position below the pixel count, and the
/// position gives the pixel back.
pub proof fn lemma_index_of_pixel(width: nat, height: nat, x: nat, y: nat)
    requires
        x < width,
        y < height,
    ensures
        raster_index(width, x, y) < width * height,
        column_of(width, raster_index(width, x, y)) == x,
        row_of(width, raster_index(width, x, y)) == y,
{
    let i = raster_index(width, x, y);
    lemma_fundamental_div_mod_converse(i as int, width as int, y as int, x as int);
    assert(y * width + width <= height * width) by (nonlinear_arith)
        requires
            y < height,
    ;
    assert(height * width == width * height) by (nonlinear_arith);
}

/// Every position below the pixel count belongs to a pixel of the frame,
/// and that pixel has this position.
pub proof fn lemma_pixel_of_index(width: nat, height: nat, i: nat)
    requires
        i < width * height,
    ensures
        column_of(width, i) < width,
        row_of(width, i) < height,
        raster_index(width, column_of(width, i), row_of(width, i)) == i,
{
    assert(width > 0) by (nonlinear_arith)
        requires
            i < width * height,
    ;
    lemma_fundamental_div_mod(i as int, width as int);
    let q = i / width;
    assert(width * q == q * width) by (nonlinear_arith);
    assert(q < height) by (nonlinear_arith)
        requires
            q * width <= i,
            i < width * height,
            width > 0,
    ;
}

} // verus!
