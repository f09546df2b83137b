//! The integer core of a composable image algebra: eight-bit pixels, the
//! row-major raster behind a buffer source, and the renderer that lays sampled
//! pixels out as an interleaved frame.

pub mod grid;
pub mod pixel;
pub mod raster;
pub mod render;

pub use pixel::Rgba8;
pub use raster::BufImage;
pub use render::render;
