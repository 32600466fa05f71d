//! Arithmetic of row-major storage: the pixel at column `x` of row `y` in a
//! grid that is `width` pixels wide sits at offset `y * width + x`.

use vstd::prelude::*;

verus! {

/// Whether `(i, j)` comes before `(x, y)` when a grid is walked row by row,
/// each row from left to right.
pub open spec fn before(i: int, j: int, x: int, y: int) -> bool {
    j < y || (j == y && i < x)
}

/// The offset of a coordinate inside the grid lies inside its storage.
pub proof fn lemma_offset_in_bounds(x: int, y: int, width: int, height: int)
    requires
        0 <= x < width,
        0 <= y < height,
    ensures
        0 <= y * width + x < width * height,
        0 <= y * width <= y * width + x,
{
    assert(0 <= y * width) by (nonlinear_arith)
        requires
            0 <= y,
            0 <= width,
    ;
    assert((y + 1) * width <= height * width) by (nonlinear_arith)
        requires
            y + 1 <= height,
            0 <= width,
    ;
    assert((y + 1) * width == y * width + width) by (nonlinear_arith);
    assert(height * width == width * height) by (nonlinear_arith);
}

/// An offset determines its coordinate: the column is the remainder and the
/// row the quotient of the division by the width.
pub proof fn lemma_offset_to_coordinate(x: int, y: int, width: int)
    requires
        0 <= x < width,
    ensures
        (y * width + x) % width == x,
        (y * width + x) / width == y,
{
    vstd::arithmetic::div_mod::lemma_fundamental_div_mod_converse(y * width + x, width, y, x);
}

/// Every offset inside the storage is the offset of one coordinate inside the
/// grid.
pub proof fn lemma_coordinate_of_offset(i: int, width: int, height: int)
    requires
        0 <= i < width * height,
        0 <= width,
        0 <= height,
    ensures
        0 < width,
        0 <= i % width < width,
        0 <= i / width < height,
        (i / width) * width + i % width == i,
{
    assert(width != 0) by (nonlinear_arith)
        requires
            0 <= i < width * height,
    ;
    vstd::arithmetic::div_mod::lemma_fundamental_div_mod(i, width);
    vstd::arithmetic::div_mod::lemma_mod_bound(i, width);
    let q = i / width;
    let r = i % width;
    assert(width * q == q * width) by (nonlinear_arith);
    assert(0 <= q < height) by (nonlinear_arith)
        requires
            q * width + r == i,
            0 <= r < width,
            0 <= i < width * height,
            0 <= height,
    ;
}

} // verus!
