//! Row-major addressing of a grid of four-byte cells, and the arithmetic facts
//! that the raster and the renderer rest on.

use vstd::prelude::*;
use vstd::arithmetic::div_mod::{lemma_fundamental_div_mod, lemma_mod_pos_bound};
use crate::pixel::Rgba8;

verus! {

/// Position of cell `(x, y)` in row-major order, in a grid `width` cells wide.
pub open spec fn cell_index(width: int, x: int, y: int) -> int {
    y * width + x
}

/// The pixel whose four channels lie interleaved at cell `(x, y)` of `bytes`.
pub open spec fn cell_at(bytes: Seq<u8>, width: int, x: int, y: int) -> Rgba8 {
    let i = cell_index(width, x, y) * 4;
    Rgba8 { r: bytes[i], g: bytes[i + 1], b: bytes[i + 2], a: bytes[i + 3] }
}

/// A cell inside a `width` by `height` grid has its index below the number of
/// cells.
pub proof fn lemma_cell_in_grid(width: int, height: int, x: int, y: int)
    requires
        0 <= x < width,
        0 <= y < height,
    ensures
        0 <= y * width,
        0 <= cell_index(width, x, y) < width * height,
{
    assert(0 <= y * width && y * width + width <= width * height) by (nonlinear_arith)
        requires
            0 <= y < height,
            0 < width,
    ;
}

/// Every cell of an earlier row comes before the first cell of a later row.
pub proof fn lemma_earlier_row(width: int, x: int, y: int, row: int)
    requires
        0 <= x < width,
        0 <= y < row,
    ensures
        0 <= cell_index(width, x, y) < row * width,
{
    assert(0 <= y * width && y * width + width <= row * width) by (nonlinear_arith)
        requires
            0 <= y < row,
            0 < width,
    ;
}

/// Every position below `width * height` is the index of exactly one cell of the
/// grid: column `c % width` of row `c / width`.
pub proof fn lemma_index_has_cell(width: int, height: int, c: int)
    requires
        0 <= c < width * height,
        0 <= width,
        0 <= height,
    ensures
        0 <= c % width < width,
        0 <= c / width < height,
        cell_index(width, c % width, c / width) == c,
{
    assert(width > 0) by (nonlinear_arith)
        requires
            0 <= c < width * height,
            0 <= width,
    ;
    lemma_fundamental_div_mod(c, width);
    lemma_mod_pos_bound(c, width);
    let x = c % width;
    let y = c / width;
    assert(c == y * width + x) by (nonlinear_arith)
        requires
            c == width * y + x,
    ;
    assert(0 <= y < height) by (nonlinear_arith)
        requires
            c == width * y + x,
            0 <= x < width,
            0 <= c < width * height,
    ;
}

/// A frame is no more than its cells: two byte sequences that fill the same grid
/// and hold the same pixel in every cell are equal.
pub proof fn lemma_frame_determined(a: Seq<u8>, b: Seq<u8>, width: int, height: int)
    requires
        0 <= width,
        0 <= height,
        a.len() == width * height * 4,
        b.len() == width * height * 4,
        forall|x: int, y: int|
            0 <= x < width && 0 <= y < height ==> #[trigger] cell_at(a, width, x, y) == cell_at(
                b,
                width,
                x,
                y,
            ),
    ensures
        a == b,
{
    assert forall|i: int| 0 <= i < a.len() implies a[i] == b[i] by {
        let c = i / 4;
        lemma_index_has_cell(width, height, c);
        let x = c % width;
        let y = c / width;
        assert(cell_at(a, width, x, y) == cell_at(b, width, x, y));
        assert(cell_index(width, x, y) * 4 <= i < cell_index(width, x, y) * 4 + 4);
    }
    assert(a =~= b);
}

} // verus!
