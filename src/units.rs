use vstd::prelude::*;

verus! {

/// Positions are counted in millionths of a pixel.
pub const UNITS_PER_PIXEL: i64 = 1_000_000;

/// Time is counted in milliseconds, so one pixel per second is this many position units per
/// time unit.
pub const UNITS_PER_PIXEL_PER_SECOND: i64 = 1000;

} // verus!
