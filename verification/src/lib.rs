//! Integer core of a Mandelbrot renderer.
//!
//! Everything here works on whole numbers: escape counts, histogram buckets,
//! palette rules in tenths, landmark coordinates in hundredths, and 8-bit
//! colour channels. Real-valued arithmetic is left to the caller, which hands
//! in escape counts and evaluated colours and takes decisions and pixels back.

use vstd::prelude::*;

pub mod palette;
pub mod regions;
pub mod render;
pub mod scheme;
pub mod search;
pub mod validator;

verus! {

/// Width of a rendered image in pixels.
pub const WIDTH: u32 = 2000;

/// Height of a rendered image in pixels.
pub const HEIGHT: u32 = 2000;

/// Largest escape count; a point that reaches it is treated as a member of the set.
pub const MAX_ITERATIONS: u32 = 1000;

/// Number of rejected candidates after which the next one is taken as it is.
pub const MAX_ATTEMPTS: u32 = 400;

} // verus!
