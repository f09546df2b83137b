//! The buffer source's raster: a finite rectangle of pixels, sampled on the
//! integer lattice.

use vstd::prelude::*;
use crate::grid::{cell_at, lemma_cell_in_grid, lemma_frame_determined};
use crate::pixel::Rgba8;

verus! {

/// What a raster is: its extent and its bytes, four per cell, rows from the top,
/// each row from the left.
pub struct Raster {
    pub width: nat,
    pub height: nat,
    pub bytes: Seq<u8>,
}

impl Raster {
    /// The bytes fill the rectangle exactly.
    pub open spec fn wf(self) -> bool {
        self.bytes.len() == self.width * self.height * 4
    }

    /// Whether the lattice point `(x, y)` lies inside the rectangle.
    pub open spec fn contains(self, x: int, y: int) -> bool {
        0 <= x < self.width && 0 <= y < self.height
    }

    /// The sample at a lattice point: the stored cell inside the rectangle,
    /// transparent black everywhere else.
    pub open spec fn pixel_at(self, x: int, y: int) -> Rgba8 {
        if self.contains(x, y) {
            cell_at(self.bytes, self.width as int, x, y)
        } else {
            Rgba8::transparent()
        }
    }
}

/// A decoded raster, immutable once built.
pub struct BufImage {
    data: Vec<u8>,
    width: usize,
    height: usize,
}

impl View for BufImage {
    type V = Raster;

    closed spec fn view(&self) -> Raster {
        Raster { width: self.width as nat, height: self.height as nat, bytes: self.data@ }
    }
}

impl BufImage {
    #[verifier::type_invariant]
    spec fn filled(&self) -> bool {
        self.data.len() == self.width * self.height * 4
    }

    /// Builds a raster from interleaved RGBA bytes. Succeeds exactly when the
    /// bytes fill `width` by `height` cells.
    pub fn from_raw(width: usize, height: usize, data: Vec<u8>) -> (r: Option<BufImage>)
        ensures
            r.is_some() <==> data@.len() == width * height * 4,
            r matches Some(b) ==> b@ == (Raster {
                width: width as nat,
                height: height as nat,
                bytes: data@,
            }) && b@.wf(),
    {
        let given: usize = data.len();
        let cells: usize = match width.checked_mul(height) {
            Some(c) => c,
            None => {
                return None;
            },
        };
        let len: usize = match cells.checked_mul(4) {
            Some(n) => n,
            None => {
                return None;
            },
        };
        if given == len {
            Some(BufImage { data, width, height })
        } else {
            None
        }
    }

    /// Number of columns.
    pub fn width(&self) -> (w: usize)
        ensures
            w == self@.width,
    {
        self.width
    }

    /// Number of rows.
    pub fn height(&self) -> (h: usize)
        ensures
            h == self@.height,
    {
        self.height
    }

    /// Samples the lattice point `(x, y)`: the stored cell when the point lies
    /// inside the raster, transparent black when it is negative or past an edge.
    pub fn get(&self, x: i64, y: i64) -> (p: Rgba8)
        ensures
            p == self@.pixel_at(x as int, y as int),
    {
        proof {
            use_type_invariant(self);
        }
        if x < 0 || y < 0 {
            return Rgba8::transparent();
        }
        if x as u64 >= self.width as u64 || y as u64 >= self.height as u64 {
            return Rgba8::transparent();
        }
        let col: usize = x as usize;
        let row: usize = y as usize;
        proof {
            lemma_cell_in_grid(self.width as int, self.height as int, col as int, row as int);
        }
        let i: usize = (row * self.width + col) * 4;
        Rgba8 { r: self.data[i], g: self.data[i + 1], b: self.data[i + 2], a: self.data[i + 3] }
    }
}

/// Off the raster there is no data: a point left of or above the origin, or at
/// or past the right or bottom edge, samples as transparent black whatever the
/// raster holds.
pub proof fn lemma_outside_is_transparent(raster: Raster, x: int, y: int)
    requires
        x < 0 || y < 0 || x >= raster.width || y >= raster.height,
    ensures
        raster.pixel_at(x, y) == Rgba8::transparent(),
{
}

/// Sampling loses nothing: a frame of a raster's extent that holds, in every
/// cell, the raster's sample at that cell has exactly the raster's bytes.
pub proof fn lemma_samples_give_bytes(raster: Raster, frame: Seq<u8>)
    requires
        raster.wf(),
        frame.len() == raster.width * raster.height * 4,
        forall|x: int, y: int|
            raster.contains(x, y) ==> #[trigger] cell_at(frame, raster.width as int, x, y)
                == raster.pixel_at(x, y),
    ensures
        frame == raster.bytes,
{
    lemma_frame_determined(frame, raster.bytes, raster.width as int, raster.height as int);
}

} // verus!
