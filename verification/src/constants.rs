//! Process-wide limits of the transformation pipeline.

use vstd::prelude::*;

verus! {

/// Largest accepted output dimension on either axis, in pixels.
pub const MAX_DIMENSION: u32 = 4096;

/// Largest accepted total pixel count; guards against decompression bombs.
pub const MAX_PIXELS: u64 = 1_000_000_000;

/// Encoding quality applied when a request names none.
pub const DEFAULT_QUALITY: u8 = 80;

} // verus!
