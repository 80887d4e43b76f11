//! Q32.32 fixed-point scalars.
//!
//! Frame statistics (average luminance, reported minimum and maximum), float
//! plane samples and mask values are all real numbers that the engine only
//! ever compares against 0 and 1 or quantizes onto the 256-step lookup
//! domain. They are carried here as signed 64-bit integers scaled by 2³²,
//! which represents every value the engine cares about exactly and keeps the
//! whole pipeline in verified integer arithmetic.

use vstd::prelude::*;

verus! {

/// The fixed-point encoding of 1.0: 2³².
pub const ONE_RAW: i64 = 4294967296;

/// Number of entries in the lookup-table domain: [0, 1) in 256 equal steps.
pub const DOMAIN_SIZE: usize = 256;

/// A real scalar in Q32.32 fixed point: the represented value is `raw / 2³²`.
#[derive(Clone, Copy, Debug, PartialEq, Eq, Structural)]
pub struct Q32 {
    pub raw: i64,
}

/// Raw value of `q` clamped to the unit interval [0, 2³²].
pub open spec fn clamped_unit(q: Q32) -> int {
    if q.raw < 0 {
        0
    } else if q.raw > ONE_RAW {
        ONE_RAW as int
    } else {
        q.raw as int
    }
}

/// Lookup index of a sample: `floor(value · 256)` clamped to [0, 256),
/// written over the raw encoding (`value · 256 = raw / 2²⁴`).
pub open spec fn sample_index(q: Q32) -> int {
    if q.raw < 0 {
        0
    } else if q.raw / 0x1000000 > 255 {
        255
    } else {
        q.raw / 0x1000000
    }
}

impl Q32 {
    /// True when the value lies in the unit interval [0, 1].
    pub open spec fn is_unit(self) -> bool {
        0 <= self.raw <= ONE_RAW
    }

    pub fn new(raw: i64) -> (r: Q32)
        ensures
            r.raw == raw,
    {
        Q32 { raw }
    }

    /// The value 0.
    pub fn zero() -> (r: Q32)
        ensures
            r.raw == 0,
    {
        Q32 { raw: 0 }
    }

    /// The value 1.
    pub fn one() -> (r: Q32)
        ensures
            r.raw == ONE_RAW,
    {
        Q32 { raw: ONE_RAW }
    }

    /// Clamp the value to the unit interval [0, 1].
    pub fn clamp_unit(self) -> (r: Q32)
        ensures
            r.raw == clamped_unit(self),
            r.is_unit(),
    {
        if self.raw < 0 {
            Q32 { raw: 0 }
        } else if self.raw > ONE_RAW {
            Q32 { raw: ONE_RAW }
        } else {
            self
        }
    }

    /// Lookup index of this sample on the 256-step domain:
    /// `floor(value · 256)` clamped to [0, 256).
    pub fn index(self) -> (i: usize)
        ensures
            i == sample_index(self),
            i < DOMAIN_SIZE,
    {
        if self.raw < 0 {
            0
        } else {
            let k: i64 = self.raw / 0x1000000;
            if k > 255 {
                255
            } else {
                k as usize
            }
        }
    }
}

} // verus!
