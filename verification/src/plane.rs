//! Planes, the per-sample transform, input validation and the per-frame
//! dispatch.
//!
//! A plane is one channel of one frame, row-major. The transform reads each
//! source sample, quantizes it onto the 256-step lookup domain — integer
//! samples by a right shift of `depth - 8` bits, float samples by
//! `floor(sample · 256)` clamped into the domain — and writes the table
//! entry at that index to the output plane. The output plane always has the
//! source's resolution, every element written exactly once.

use vstd::prelude::*;
use vstd::arithmetic::div_mod::{lemma_div_is_ordered, lemma_div_of0};
use vstd::arithmetic::power2::{lemma2_to64, lemma_pow2_pos, pow2};
use vstd::bits::lemma_u64_shr_is_div;

use crate::fixed::{sample_index, Q32, DOMAIN_SIZE, ONE_RAW};
use crate::mask::{
    depth_max, depth_supported, float_lut_entry, int_lut_entry, FloatLut, IntLut, MaskError,
};

verus! {

/// One channel of integer-depth samples, row-major. Samples are widened to
/// `u64` so a single plane type covers the 8-, 16- and 32-bit sample widths.
#[derive(Clone, Debug)]
pub struct Plane {
    pub width: usize,
    pub height: usize,
    pub samples: Vec<u64>,
}

impl Plane {
    /// Well-formed: exactly one sample per pixel.
    pub open spec fn wf(self) -> bool {
        self.samples.len() == self.width * self.height
    }
}

/// One channel of float samples, row-major, carried in Q32.32 fixed point.
#[derive(Clone, Debug)]
pub struct FloatPlane {
    pub width: usize,
    pub height: usize,
    pub samples: Vec<Q32>,
}

impl FloatPlane {
    /// Well-formed: exactly one sample per pixel.
    pub open spec fn wf(self) -> bool {
        self.samples.len() == self.width * self.height
    }
}

/// Lookup index of an integer sample: the sample right-shifted by
/// `depth - 8` bits, i.e. divided by `2^(depth-8)`.
pub open spec fn int_index(s: u64, depth: u8) -> int {
    s as int / pow2((depth - 8) as nat) as int
}

/// The lookup index of an integer sample is never negative.
pub proof fn lemma_int_index_nonneg(s: u64, depth: u8)
    requires
        depth_supported(depth),
    ensures
        0 <= int_index(s, depth),
{
    let p: int = pow2((depth - 8) as nat) as int;
    lemma_pow2_pos((depth - 8) as nat);
    lemma_div_of0(p);
    lemma_div_is_ordered(0, s as int, p);
}

/// Transform one integer-depth plane through a built table.
///
/// Succeeds exactly when every sample fits its declared depth — that is,
/// when every computed index lands inside the table domain; a sample wider
/// than the depth is reported, never read out of bounds.
pub fn apply_int(lut: &IntLut, src: &Plane) -> (r: Result<Plane, MaskError>)
    requires
        lut.wf(),
        src.wf(),
    ensures
        r is Ok <==> (forall|j: int|
            0 <= j < src.samples.len() ==> int_index(src.samples[j], lut.depth) < DOMAIN_SIZE),
        match r {
            Ok(out) => {
                &&& out.width == src.width
                &&& out.height == src.height
                &&& out.wf()
                &&& out.samples.len() == src.samples.len()
                &&& forall|j: int|
                    0 <= j < src.samples.len() ==> out.samples[j] == lut.entries[int_index(
                        src.samples[j],
                        lut.depth,
                    )]
                &&& forall|j: int|
                    0 <= j < src.samples.len() ==> out.samples[j] <= depth_max(lut.depth)
            },
            Err(e) => e == MaskError::DomainIndexOverflow,
        },
{
    let sh: u64 = (lut.depth - 8) as u64;
    let mut out: Vec<u64> = Vec::new();
    let mut j: usize = 0;
    while j < src.samples.len()
        invariant
            lut.wf(),
            src.wf(),
            sh == lut.depth - 8,
            sh <= 24,
            j <= src.samples.len(),
            out.len() == j,
            forall|t: int| 0 <= t < j ==> int_index(src.samples[t], lut.depth) < DOMAIN_SIZE,
            forall|t: int|
                0 <= t < j ==> out[t] == lut.entries[int_index(src.samples[t], lut.depth)],
            forall|t: int| 0 <= t < j ==> out[t] <= depth_max(lut.depth),
        decreases src.samples.len() - j,
    {
        let s: u64 = src.samples[j];
        proof {
            lemma_u64_shr_is_div(s, sh);
        }
        let idx: u64 = s >> sh;
        if idx >= 256 {
            return Err(MaskError::DomainIndexOverflow);
        }
        out.push(lut.entries[idx as usize]);
        j = j + 1;
    }
    Ok(Plane { width: src.width, height: src.height, samples: out })
}

/// Transform one float plane through a built table. Total: the index of
/// every sample, in range or not, is clamped into the table domain.
pub fn apply_float(lut: &FloatLut, src: &FloatPlane) -> (out: FloatPlane)
    requires
        lut.wf(),
        src.wf(),
    ensures
        out.width == src.width,
        out.height == src.height,
        out.wf(),
        out.samples.len() == src.samples.len(),
        forall|j: int|
            0 <= j < src.samples.len() ==> out.samples[j] == lut.entries[sample_index(
                src.samples[j],
            )],
        forall|j: int| 0 <= j < src.samples.len() ==> (#[trigger] out.samples[j]).is_unit(),
{
    let mut out: Vec<Q32> = Vec::new();
    let mut j: usize = 0;
    while j < src.samples.len()
        invariant
            lut.wf(),
            src.wf(),
            j <= src.samples.len(),
            out.len() == j,
            forall|t: int|
                0 <= t < j ==> out[t] == lut.entries[sample_index(src.samples[t])],
            forall|t: int| 0 <= t < j ==> (#[trigger] out[t]).is_unit(),
        decreases src.samples.len() - j,
    {
        let idx: usize = src.samples[j].index();
        out.push(lut.entries[idx]);
        j = j + 1;
    }
    FloatPlane { width: src.width, height: src.height, samples: out }
}

/// Check a float frame's reported sample statistics before the transform:
/// the minimum must be at least 0 and the maximum at most 1. A violation
/// means the upstream conversion produced out-of-range samples; the frame is
/// rejected rather than silently clamped.
pub fn validate_range(stats_min: Q32, stats_max: Q32) -> (r: Result<(), MaskError>)
    ensures
        r is Ok <==> (stats_min.raw >= 0 && stats_max.raw <= ONE_RAW),
        match r {
            Ok(u) => u == (),
            Err(e) => e == MaskError::OutOfRangeInput,
        },
{
    if stats_min.raw < 0 || stats_max.raw > ONE_RAW {
        Err(MaskError::OutOfRangeInput)
    } else {
        Ok(())
    }
}

/// One frame's worth of input to the engine: the source plane together with
/// what the dispatch needs to know about its format, and, for float sources,
/// the reported min/max statistics (absent statistics default to the valid
/// range, as the host's property lookup does).
pub enum FrameInput {
    Integer { depth: u8, plane: Plane },
    Float { stats_min: Option<Q32>, stats_max: Option<Q32>, plane: FloatPlane },
}

impl FrameInput {
    /// Well-formed: the carried plane is.
    pub open spec fn wf(self) -> bool {
        match self {
            FrameInput::Integer { depth, plane } => plane.wf(),
            FrameInput::Float { stats_min, stats_max, plane } => plane.wf(),
        }
    }
}

/// The output plane, in the sample family of the input.
#[derive(Debug)]
pub enum FrameOutput {
    Integer(Plane),
    Float(FloatPlane),
}

/// A reported statistic, or its default when the host supplied none.
pub open spec fn stat_or(s: Option<Q32>, default: int) -> int {
    match s {
        Some(q) => q.raw as int,
        None => default,
    }
}

/// When `process_frame` accepts a frame: an average statistic is present,
/// and the plane passes its family's checks — a supported depth and
/// depth-respecting samples for integer sources, in-range statistics for
/// float sources.
pub open spec fn frame_accepted(average: Option<Q32>, input: FrameInput) -> bool {
    &&& average is Some
    &&& match input {
        FrameInput::Integer { depth, plane } => {
            &&& depth_supported(depth)
            &&& forall|j: int|
                0 <= j < plane.samples.len() ==> int_index(plane.samples[j], depth) < DOMAIN_SIZE
        },
        FrameInput::Float { stats_min, stats_max, plane } => {
            &&& stat_or(stats_min, 0) >= 0
            &&& stat_or(stats_max, ONE_RAW as int) <= ONE_RAW
        },
    }
}

/// The error a rejected frame surfaces, in the order the checks run.
pub open spec fn frame_error(average: Option<Q32>, input: FrameInput) -> MaskError {
    if average is None {
        MaskError::MissingStatistic
    } else {
        match input {
            FrameInput::Integer { depth, plane } => if !depth_supported(depth) {
                MaskError::UnsupportedDepth
            } else {
                MaskError::DomainIndexOverflow
            },
            FrameInput::Float { stats_min, stats_max, plane } => MaskError::OutOfRangeInput,
        }
    }
}

/// What an accepted frame's output looks like: a plane of the input's
/// resolution whose every sample is the table entry selected by the
/// corresponding source sample.
pub open spec fn output_matches(
    luma_scaling: Q32,
    average: Q32,
    input: FrameInput,
    mask: Seq<Q32>,
    out: FrameOutput,
) -> bool {
    match input {
        FrameInput::Integer { depth, plane } => match out {
            FrameOutput::Integer(o) => {
                &&& o.width == plane.width
                &&& o.height == plane.height
                &&& o.samples.len() == plane.samples.len()
                &&& forall|j: int|
                    0 <= j < plane.samples.len() ==> o.samples[j] == int_lut_entry(
                        depth,
                        average,
                        luma_scaling,
                        mask,
                        int_index(plane.samples[j], depth),
                    )
            },
            FrameOutput::Float(o) => false,
        },
        FrameInput::Float { stats_min, stats_max, plane } => match out {
            FrameOutput::Integer(o) => false,
            FrameOutput::Float(o) => {
                &&& o.width == plane.width
                &&& o.height == plane.height
                &&& o.samples.len() == plane.samples.len()
                &&& forall|j: int|
                    0 <= j < plane.samples.len() ==> (#[trigger] o.samples[j]).raw
                        == float_lut_entry(
                        average,
                        luma_scaling,
                        mask,
                        sample_index(plane.samples[j]),
                    )
            },
        },
    }
}

/// Process one frame: look up the average statistic, dispatch on the sample
/// family, validate what the family requires, build the frame's table and
/// stream the plane through it.
///
/// `mask` holds the 256 host-evaluated mask values `p(i/256)^(average²·s)`
/// in Q32.32; they are ignored exactly when the exponent is zero (see the
/// table builders).
pub fn process_frame(
    luma_scaling: Q32,
    average: Option<Q32>,
    input: &FrameInput,
    mask: &Vec<Q32>,
) -> (r: Result<FrameOutput, MaskError>)
    requires
        mask.len() == DOMAIN_SIZE,
        input.wf(),
    ensures
        r is Ok <==> frame_accepted(average, *input),
        match r {
            Ok(out) => output_matches(luma_scaling, average->Some_0, *input, mask@, out),
            Err(e) => e == frame_error(average, *input),
        },
{
    let a: Q32 = match average {
        Some(a) => a,
        None => {
            return Err(MaskError::MissingStatistic);
        },
    };
    match input {
        FrameInput::Integer { depth, plane } => {
            let lut = match IntLut::build(*depth, a, luma_scaling, mask) {
                Ok(l) => l,
                Err(e) => {
                    return Err(e);
                },
            };
            match apply_int(&lut, plane) {
                Ok(o) => {
                    proof {
                        assert forall|j: int| 0 <= j < plane.samples.len() implies o.samples[j]
                            == int_lut_entry(
                            *depth,
                            a,
                            luma_scaling,
                            mask@,
                            int_index(plane.samples[j], *depth),
                        ) by {
                            lemma_int_index_nonneg(plane.samples[j], *depth);
                        }
                    }
                    Ok(FrameOutput::Integer(o))
                },
                Err(e) => Err(e),
            }
        },
        FrameInput::Float { stats_min, stats_max, plane } => {
            let mn: Q32 = match stats_min {
                Some(q) => *q,
                None => Q32::zero(),
            };
            let mx: Q32 = match stats_max {
                Some(q) => *q,
                None => Q32::one(),
            };
            match validate_range(mn, mx) {
                Ok(_) => {},
                Err(e) => {
                    return Err(e);
                },
            }
            let lut = FloatLut::build(a, luma_scaling, mask);
            Ok(FrameOutput::Float(apply_float(&lut, plane)))
        },
    }
}

/// With a zero average luminance the exponent is zero, the mask is exactly 1
/// at every domain step, and an accepted integer-depth frame comes back with
/// every output sample equal to the largest value its depth represents —
/// the transform is the identity onto a fully open mask.
pub proof fn lemma_identity_at_zero_average(
    luma_scaling: Q32,
    average: Q32,
    input: FrameInput,
    mask: Seq<Q32>,
    out: FrameOutput,
)
    requires
        average.raw == 0,
        input matches FrameInput::Integer { .. },
        output_matches(luma_scaling, average, input, mask, out),
    ensures
        match (input, out) {
            (FrameInput::Integer { depth, plane }, FrameOutput::Integer(o)) => forall|j: int|
                0 <= j < o.samples.len() ==> o.samples[j] == depth_max(depth),
            _ => true,
        },
{
}

/// An 8-bit sample and the 16-bit sample encoding the same logical value
/// (`v` against `v · 257`, since `65535 == 257 · 255`) select the same
/// lookup index at their respective depths.
pub proof fn lemma_index_depth_agreement(v: u64)
    requires
        v < 256,
    ensures
        int_index(v, 8) == v as int,
        int_index((v * 257) as u64, 16) == v as int,
{
    lemma2_to64();
    assert(v as int / 1 == v as int);
    assert((v * 257) as int / 256 == v as int) by (nonlinear_arith)
        requires
            v < 256,
    ;
}

} // verus!
