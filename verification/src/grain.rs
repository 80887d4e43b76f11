//! Per-pixel core of the additive-noise filter.
//!
//! The grain filter adds a small random offset to every 8-bit sample and
//! clamps the sum back into the sample range. Drawing the offsets is the
//! host's business; given a sample and its offset, the arithmetic and the
//! clamping are decided here.

use vstd::prelude::*;

verus! {

/// `input` clamped into `[lower, upper]`.
pub open spec fn clipped(input: int, lower: int, upper: int) -> int {
    if input > upper {
        upper
    } else if input < lower {
        lower
    } else {
        input
    }
}

/// Clamp `input` into `[lower, upper]`: the smaller of `upper` and the
/// larger of `lower` and `input`.
pub fn clip(input: i32, lower: i32, upper: i32) -> (r: i32)
    requires
        lower <= upper,
    ensures
        r == clipped(input as int, lower as int, upper as int),
        lower <= r <= upper,
{
    if input > upper {
        upper
    } else if input < lower {
        lower
    } else {
        input
    }
}

/// Add one noise offset to one 8-bit sample and clamp the sum back into
/// the sample range.
pub fn grain_sample(pixel: u8, offset: i16) -> (r: u8)
    ensures
        r == clipped(pixel as i32 + offset as i32, 0, 255),
{
    let sum: i32 = pixel as i32 + offset as i32;
    clip(sum, 0, 255) as u8
}

} // verus!
