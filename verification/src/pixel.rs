//! Pixel sample types: the wide-range luma/chroma triple the host edits in,
//! and the packed 8-bit RGB triple.

use vstd::prelude::*;

verus! {

/// One luma/blue-difference/red-difference sample.
///
/// Luma is nominally in `0..=4096` and each chroma channel in
/// `-2048..=2048`, but values may legitimately leave that range while a
/// filter chain is running, so no invariant is imposed here.
#[derive(Debug, Clone, Copy, PartialEq, Eq, Structural, Hash)]
pub struct PixelYc {
    /// Luma.
    pub y: i16,
    /// Blue-difference chroma.
    pub cb: i16,
    /// Red-difference chroma.
    pub cr: i16,
}

impl PixelYc {
    /// The all-zero sample.
    pub fn zero() -> (r: Self)
        ensures
            r.y == 0 && r.cb == 0 && r.cr == 0,
    {
        PixelYc { y: 0, cb: 0, cr: 0 }
    }
}

impl Default for PixelYc {
    /// The all-zero sample.
    fn default() -> (r: Self)
        ensures
            r.y == 0 && r.cb == 0 && r.cr == 0,
    {
        PixelYc { y: 0, cb: 0, cr: 0 }
    }
}

/// One packed 24-bit RGB sample.
#[derive(Debug, Clone, Copy, PartialEq, Eq, Structural, Hash)]
pub struct PixelRgb {
    /// Blue.
    pub b: u8,
    /// Green.
    pub g: u8,
    /// Red.
    pub r: u8,
}

} // verus!
