//! The geometry of the display.

use vstd::prelude::*;

verus! {

/// Number of pixel columns of the display.
pub const WIDTH: usize = 64;

/// Number of pixel rows of the display.
pub const HEIGHT: usize = 32;

/// Number of cells of the flat framebuffer, one per pixel, row after row.
pub const PIXELS: usize = WIDTH * HEIGHT;

} // verus!
