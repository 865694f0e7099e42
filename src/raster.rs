//! Rasterized images, as the rasterizer hands them over.

use vstd::prelude::*;

verus! {

/// A rasterized image: RGBA8 pixels, row by row.
#[derive(Debug, Clone, Default)]
pub struct PreviewImage {
    pub width: u32,
    pub height: u32,
    pub stride: u32,
    pub pixels: Vec<u8>,
}

} // verus!
