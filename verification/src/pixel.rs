//! The eight-bit pixel that crosses the codec boundary.

use vstd::prelude::*;

verus! {

/// Four eight-bit channels: red, green, blue, alpha.
#[derive(Clone, Copy, Debug, PartialEq, Eq, Structural)]
pub struct Rgba8 {
    pub r: u8,
    pub g: u8,
    pub b: u8,
    pub a: u8,
}

impl Rgba8 {
    /// Fully transparent black, the value that stands for "no data".
    pub open spec fn spec_transparent() -> Rgba8 {
        Rgba8 { r: 0, g: 0, b: 0, a: 0 }
    }

    /// Fully transparent black.
    #[verifier::when_used_as_spec(spec_transparent)]
    pub fn transparent() -> (p: Rgba8)
        ensures
            p == Rgba8::spec_transparent(),
    {
        Rgba8 { r: 0, g: 0, b: 0, a: 0 }
    }
}

} // verus!
