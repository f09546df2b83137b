//! The renderer: walks a finite window of the output lattice and lays the
//! sampled pixels out as an interleaved frame.

use vstd::prelude::*;
use crate::grid::{cell_at, cell_index, lemma_cell_in_grid, lemma_earlier_row};
use crate::pixel::Rgba8;

verus! {

/// Samples every cell of the window `[0, width) x [0, height)`, row by row from
/// the top and left to right within a row, and returns the frame: four bytes per
/// cell, red, green, blue, alpha, in the order in which the cells were sampled.
/// Cell `(x, y)` of the frame holds what `sample` returned for `(x, y)`.
pub fn render<F: Fn(usize, usize) -> Rgba8>(width: usize, height: usize, sample: F) -> (buf: Vec<u8>)
    requires
        width * height * 4 <= usize::MAX,
        forall|x: usize, y: usize| x < width && y < height ==> call_requires(sample, (x, y)),
    ensures
        buf@.len() == width * height * 4,
        forall|x: usize, y: usize|
            x < width && y < height ==> call_ensures(
                sample,
                (x, y),
                #[trigger] cell_at(buf@, width as int, x as int, y as int),
            ),
{
    let mut buf: Vec<u8> = Vec::new();
    let mut y: usize = 0;
    while y < height
        invariant
            y <= height,
            buf@.len() == y * width * 4,
            forall|x: usize, y: usize| x < width && y < height ==> call_requires(sample, (x, y)),
            forall|cx: usize, cy: usize|
                cx < width && cy < y ==> call_ensures(
                    sample,
                    (cx, cy),
                    #[trigger] cell_at(buf@, width as int, cx as int, cy as int),
                ),
        decreases height - y,
    {
        let mut x: usize = 0;
        while x < width
            invariant
                x <= width,
                y < height,
                buf@.len() == (y * width + x) * 4,
                forall|x: usize, y: usize|
                    x < width && y < height ==> call_requires(sample, (x, y)),
                forall|cx: usize, cy: usize|
                    cx < width && cy < y ==> call_ensures(
                        sample,
                        (cx, cy),
                        #[trigger] cell_at(buf@, width as int, cx as int, cy as int),
                    ),
                forall|cx: usize|
                    cx < x ==> call_ensures(
                        sample,
                        (cx, y),
                        #[trigger] cell_at(buf@, width as int, cx as int, y as int),
                    ),
            decreases width - x,
        {
            let p = sample(x, y);
            let ghost before = buf@;
            buf.push(p.r);
            buf.push(p.g);
            buf.push(p.b);
            buf.push(p.a);
            proof {
                assert forall|cx: usize, cy: usize| cx < width && cy < y implies call_ensures(
                    sample,
                    (cx, cy),
                    #[trigger] cell_at(buf@, width as int, cx as int, cy as int),
                ) by {
                    lemma_earlier_row(width as int, cx as int, cy as int, y as int);
                    assert(cell_at(buf@, width as int, cx as int, cy as int) == cell_at(
                        before,
                        width as int,
                        cx as int,
                        cy as int,
                    ));
                }
                assert forall|cx: usize| cx < x + 1 implies call_ensures(
                    sample,
                    (cx, y),
                    #[trigger] cell_at(buf@, width as int, cx as int, y as int),
                ) by {
                    if cx < x {
                        assert(cell_at(buf@, width as int, cx as int, y as int) == cell_at(
                            before,
                            width as int,
                            cx as int,
                            y as int,
                        ));
                    }
                }
            }
            x += 1;
        }
        proof {
            assert((y * width + width) * 4 == (y + 1) * width * 4) by (nonlinear_arith);
        }
        y += 1;
    }
    proof {
        assert(height * width * 4 == width * height * 4) by (nonlinear_arith);
    }
    buf
}

} // verus!
