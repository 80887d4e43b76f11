//! Lookup-table construction and the depth-dispatching plane transform.
//!
//! One table is built per frame from the frame's average luminance and the
//! instance's scaling constant. Each of the 256 entries holds the mask value
//! for one step of the normalized sample domain: for integer-depth planes the
//! value is pre-scaled by `2^depth - 1` and truncated to an integer at
//! construction time, for float planes it is kept as a Q32.32 scalar. The
//! transform then streams every sample of the source plane through the table.
//!
//! The transcendental mask evaluation `p(x) ^ (y²·s)` itself is handed in by
//! the host as 256 fixed-point values (see the crate root); everything about
//! the exponent-zero case, clamping, scaling, truncation, indexing and plane
//! coverage is decided and proved here. When the exponent `y²·s` is zero the
//! mask is exactly 1 everywhere, so the builders ignore the supplied values
//! and fill the table with the encoding of 1; the supplied values only reach
//! the table when the exponent is not zero.

use vstd::prelude::*;
use vstd::arithmetic::power2::{pow2, lemma2_to64, lemma_pow2_pos, lemma_pow2_strictly_increases};
use vstd::arithmetic::div_mod::{lemma_div_is_ordered, lemma_div_of0, lemma_hoist_over_denominator};
use vstd::bits::{lemma_u64_shl_is_mul, lemma_u64_shr_is_div};

use crate::fixed::{clamped_unit, Q32, DOMAIN_SIZE, ONE_RAW};

verus! {

/// The error conditions a frame can surface. All of them are detected
/// synchronously and returned to the caller; none is retried.
#[derive(Clone, Copy, Debug, PartialEq, Eq, Structural)]
pub enum MaskError {
    /// The frame-average statistic was not supplied by the upstream pass.
    MissingStatistic,
    /// Integer bit depth outside the supported 8..=32 range.
    UnsupportedDepth,
    /// A float source's reported minimum/maximum statistics violate [0, 1].
    OutOfRangeInput,
    /// A source sample does not fit its declared bit depth, so its lookup
    /// index would fall outside the table domain.
    DomainIndexOverflow,
}

impl MaskError {
    /// A user-actionable description of the error.
    pub fn message(&self) -> (m: &'static str)
        ensures
            m@ == message_spec(*self),
    {
        match self {
            MaskError::MissingStatistic => {
                "adaptivegrain: you need to run std.PlaneStats on the clip before calling this function."
            },
            MaskError::UnsupportedDepth => {
                "adaptivegrain: input bit depth not supported; only integer depths 8 through 32 and 32-bit float are handled."
            },
            MaskError::OutOfRangeInput => {
                "adaptivegrain: found invalid input. Some pixels are outside of the valid range. You probably used a filter that operates on limited range without clipping properly before converting to float. Clip all pixels to [0, 1] or convert via an integer format first."
            },
            MaskError::DomainIndexOverflow => {
                "adaptivegrain: a source sample exceeds its declared bit depth, so its lookup index falls outside the table domain."
            },
        }
    }
}

/// The text `message` returns for each error.
pub open spec fn message_spec(e: MaskError) -> Seq<char> {
    match e {
        MaskError::MissingStatistic => "adaptivegrain: you need to run std.PlaneStats on the clip before calling this function."@,
        MaskError::UnsupportedDepth => "adaptivegrain: input bit depth not supported; only integer depths 8 through 32 and 32-bit float are handled."@,
        MaskError::OutOfRangeInput => "adaptivegrain: found invalid input. Some pixels are outside of the valid range. You probably used a filter that operates on limited range without clipping properly before converting to float. Clip all pixels to [0, 1] or convert via an integer format first."@,
        MaskError::DomainIndexOverflow => "adaptivegrain: a source sample exceeds its declared bit depth, so its lookup index falls outside the table domain."@,
    }
}

/// Integer depths the transform supports.
pub open spec fn depth_supported(depth: u8) -> bool {
    8 <= depth <= 32
}

/// Largest sample value representable at `depth` bits: `2^depth - 1`.
pub open spec fn depth_max(depth: u8) -> int {
    pow2(depth as nat) - 1
}

/// `2^depth - 1` as a machine value.
pub fn max_value(depth: u8) -> (m: u64)
    requires
        depth_supported(depth),
    ensures
        m == depth_max(depth),
        255 <= m <= 4294967295,
{
    proof {
        lemma2_to64();
        if depth < 32 {
            lemma_pow2_strictly_increases(depth as nat, 32);
        }
        if 8 < depth {
            lemma_pow2_strictly_increases(8, depth as nat);
        }
        lemma_u64_shl_is_mul(1u64, depth as u64);
    }
    (1u64 << (depth as u64)) - 1
}

/// A mask value quantized onto `depth`-bit samples: the value is clamped to
/// [0, 1], scaled by `2^depth - 1` and truncated.
pub open spec fn quantized(q: Q32, depth: u8) -> int {
    clamped_unit(q) * depth_max(depth) / 4294967296
}

/// Clamp, scale and truncate one mask value onto `depth`-bit samples.
pub fn quantize(q: Q32, depth: u8) -> (e: u64)
    requires
        depth_supported(depth),
    ensures
        e == quantized(q, depth),
        e <= depth_max(depth),
        q.raw >= ONE_RAW ==> e == depth_max(depth),
{
    let c = q.clamp_unit();
    let cu: u64 = c.raw as u64;
    let max: u64 = max_value(depth);
    proof {
        assert(cu * max <= 4294967296 * 4294967295) by (nonlinear_arith)
            requires
                cu <= 4294967296,
                max <= 4294967295,
        ;
        assert(cu * max <= 4294967296 * max) by (nonlinear_arith)
            requires
                cu <= 4294967296,
                0 <= max,
        ;
    }
    let prod: u64 = cu * max;
    proof {
        lemma_u64_shr_is_div(prod, 32);
        lemma2_to64();
        lemma_div_is_ordered(prod as int, 4294967296 * max, 4294967296);
        assert((4294967296 * max) / 4294967296 == max);
        if q.raw >= ONE_RAW {
            assert(cu == 4294967296);
        }
    }
    prod >> 32u64
}

/// What entry `i` of an integer-depth table holds, given the frame average,
/// the scaling constant and the supplied mask values: the exact encoding of
/// 1 scaled to the depth when the exponent `average²·scaling` is zero, the
/// quantized supplied value otherwise.
pub open spec fn int_lut_entry(
    depth: u8,
    average: Q32,
    luma_scaling: Q32,
    mask: Seq<Q32>,
    i: int,
) -> int {
    if average.raw == 0 || luma_scaling.raw == 0 {
        depth_max(depth)
    } else {
        quantized(mask[i], depth)
    }
}

/// What entry `i` of a float table holds: the encoding of 1 when the
/// exponent is zero, the supplied value clamped to [0, 1] otherwise.
pub open spec fn float_lut_entry(average: Q32, luma_scaling: Q32, mask: Seq<Q32>, i: int) -> int {
    if average.raw == 0 || luma_scaling.raw == 0 {
        ONE_RAW as int
    } else {
        clamped_unit(mask[i])
    }
}

/// Lookup table for integer-depth planes: entry values are already scaled to
/// the output depth, so the per-sample work is one table read.
#[derive(Clone, Debug)]
pub struct IntLut {
    pub depth: u8,
    pub entries: Vec<u64>,
}

impl IntLut {
    /// Well-formed: a supported depth, one entry per domain step, every
    /// entry representable at that depth.
    pub open spec fn wf(self) -> bool {
        &&& depth_supported(self.depth)
        &&& self.entries.len() == DOMAIN_SIZE
        &&& forall|i: int| 0 <= i < DOMAIN_SIZE ==> self.entries[i] <= depth_max(self.depth)
    }

    /// The table `build` produces from these inputs.
    pub open spec fn built_from(self, depth: u8, average: Q32, luma_scaling: Q32, mask: Seq<Q32>) -> bool {
        &&& self.depth == depth
        &&& self.entries.len() == DOMAIN_SIZE
        &&& forall|i: int|
            0 <= i < DOMAIN_SIZE ==> self.entries[i] == int_lut_entry(
                depth,
                average,
                luma_scaling,
                mask,
                i,
            )
    }

    /// Build the table for one frame of an integer-depth source.
    ///
    /// `mask` holds the 256 mask values `p(i/256) ^ (average²·scaling)` in
    /// Q32.32, evaluated by the host; they are ignored when the exponent is
    /// zero, where the mask is exactly 1 everywhere.
    pub fn build(depth: u8, average: Q32, luma_scaling: Q32, mask: &Vec<Q32>) -> (r: Result<
        IntLut,
        MaskError,
    >)
        requires
            mask.len() == DOMAIN_SIZE,
        ensures
            r is Ok <==> depth_supported(depth),
            match r {
                Ok(l) => {
                    &&& l.wf()
                    &&& l.built_from(depth, average, luma_scaling, mask@)
                    &&& (average.raw == 0 || luma_scaling.raw == 0) ==> forall|i: int|
                        0 <= i < DOMAIN_SIZE ==> l.entries[i] == depth_max(depth)
                },
                Err(e) => e == MaskError::UnsupportedDepth,
            },
    {
        if depth < 8 || depth > 32 {
            return Err(MaskError::UnsupportedDepth);
        }
        let full = average.raw == 0 || luma_scaling.raw == 0;
        let max: u64 = max_value(depth);
        let mut entries: Vec<u64> = Vec::new();
        let mut i: usize = 0;
        while i < DOMAIN_SIZE
            invariant
                i <= DOMAIN_SIZE,
                mask.len() == DOMAIN_SIZE,
                depth_supported(depth),
                max == depth_max(depth),
                full == (average.raw == 0 || luma_scaling.raw == 0),
                entries.len() == i,
                forall|j: int|
                    0 <= j < i ==> entries[j] == int_lut_entry(
                        depth,
                        average,
                        luma_scaling,
                        mask@,
                        j,
                    ),
                forall|j: int| 0 <= j < i ==> entries[j] <= depth_max(depth),
            decreases DOMAIN_SIZE - i,
        {
            if full {
                entries.push(max);
            } else {
                entries.push(quantize(mask[i], depth));
            }
            i = i + 1;
        }
        Ok(IntLut { depth, entries })
    }
}

/// Quantization preserves order: a larger mask value never produces a
/// smaller table entry.
pub proof fn lemma_quantize_monotone(q1: Q32, q2: Q32, depth: u8)
    requires
        depth_supported(depth),
        q1.raw <= q2.raw,
    ensures
        quantized(q1, depth) <= quantized(q2, depth),
{
    lemma_pow2_pos(depth as nat);
    let m: int = depth_max(depth);
    let c1: int = clamped_unit(q1);
    let c2: int = clamped_unit(q2);
    assert(c1 * m <= c2 * m) by (nonlinear_arith)
        requires
            c1 <= c2,
            0 <= m,
    ;
    lemma_div_is_ordered(c1 * m, c2 * m, 4294967296);
}

/// A table built from non-increasing mask values is itself non-increasing:
/// the supplied values are the mask polynomial's (strictly decreasing) grid
/// values raised to one fixed non-negative power, and neither clamping,
/// scaling nor truncation reorders them.
pub proof fn lemma_lut_antitone(
    depth: u8,
    average: Q32,
    luma_scaling: Q32,
    mask: Seq<Q32>,
    l: IntLut,
    i: int,
    j: int,
)
    requires
        depth_supported(depth),
        mask.len() == DOMAIN_SIZE,
        l.built_from(depth, average, luma_scaling, mask),
        0 <= i <= j < DOMAIN_SIZE,
        forall|a: int, b: int| 0 <= a <= b < DOMAIN_SIZE ==> mask[b].raw <= mask[a].raw,
    ensures
        l.entries[j] <= l.entries[i],
{
    if average.raw == 0 || luma_scaling.raw == 0 {
    } else {
        lemma_quantize_monotone(mask[j], mask[i], depth);
    }
}

/// A float table built from non-increasing mask values is itself
/// non-increasing: clamping to the unit interval keeps the order.
pub proof fn lemma_float_lut_antitone(
    average: Q32,
    luma_scaling: Q32,
    mask: Seq<Q32>,
    l: FloatLut,
    i: int,
    j: int,
)
    requires
        mask.len() == DOMAIN_SIZE,
        l.built_from(average, luma_scaling, mask),
        0 <= i <= j < DOMAIN_SIZE,
        forall|a: int, b: int| 0 <= a <= b < DOMAIN_SIZE ==> mask[b].raw <= mask[a].raw,
    ensures
        l.entries[j].raw <= l.entries[i].raw,
{
    assert(mask[j].raw <= mask[i].raw);
}

/// One mask value quantized at 8 and at 16 bits encodes the same level up
/// to table quantization error: since `65535 == 257 · 255`, the 16-bit
/// entry lies within `[257·e₈, 257·e₈ + 256]` — at most one 8-bit step away
/// once both are read on a common scale.
pub proof fn lemma_quantize_depth_consistency(q: Q32)
    ensures
        257 * quantized(q, 8) <= quantized(q, 16),
        quantized(q, 16) <= 257 * quantized(q, 8) + 256,
{
    lemma2_to64();
    let c: int = clamped_unit(q);
    let a: int = c * 255;
    assert(c * 65535 == 257 * a) by (nonlinear_arith)
        requires
            a == c * 255,
    ;
    let t: int = a / 4294967296;
    let u: int = a % 4294967296;
    assert(0 <= a);
    assert(a == 4294967296 * t + u);
    assert(0 <= u < 4294967296);
    assert(257 * a == 257 * u + (257 * t) * 4294967296);
    lemma_hoist_over_denominator(257 * u, 257 * t, 4294967296 as nat);
    assert((257 * a) / 4294967296 == (257 * u) / 4294967296 + 257 * t);
    lemma_div_of0(4294967296);
    lemma_div_is_ordered(0, 257 * u, 4294967296);
    lemma_div_is_ordered(257 * u, 1103806594815, 4294967296);
    assert(1103806594815int / 4294967296 == 256);
}

/// Lookup table for 32-bit float planes: entries are mask values in Q32.32.
#[derive(Clone, Debug)]
pub struct FloatLut {
    pub entries: Vec<Q32>,
}

impl FloatLut {
    /// Well-formed: one entry per domain step, every entry in [0, 1].
    pub open spec fn wf(self) -> bool {
        &&& self.entries.len() == DOMAIN_SIZE
        &&& forall|i: int| 0 <= i < DOMAIN_SIZE ==> (#[trigger] self.entries[i]).is_unit()
    }

    /// The table `build` produces from these inputs.
    pub open spec fn built_from(self, average: Q32, luma_scaling: Q32, mask: Seq<Q32>) -> bool {
        &&& self.entries.len() == DOMAIN_SIZE
        &&& forall|i: int|
            0 <= i < DOMAIN_SIZE ==> (#[trigger] self.entries[i]).raw == float_lut_entry(
                average,
                luma_scaling,
                mask,
                i,
            )
    }

    /// Build the table for one frame of a float source; total, since float
    /// output needs no depth negotiation.
    pub fn build(average: Q32, luma_scaling: Q32, mask: &Vec<Q32>) -> (l: FloatLut)
        requires
            mask.len() == DOMAIN_SIZE,
        ensures
            l.wf(),
            l.built_from(average, luma_scaling, mask@),
            (average.raw == 0 || luma_scaling.raw == 0) ==> forall|i: int|
                0 <= i < DOMAIN_SIZE ==> (#[trigger] l.entries[i]).raw == ONE_RAW,
    {
        let full = average.raw == 0 || luma_scaling.raw == 0;
        let mut entries: Vec<Q32> = Vec::new();
        let mut i: usize = 0;
        while i < DOMAIN_SIZE
            invariant
                i <= DOMAIN_SIZE,
                mask.len() == DOMAIN_SIZE,
                full == (average.raw == 0 || luma_scaling.raw == 0),
                entries.len() == i,
                forall|j: int|
                    0 <= j < i ==> (#[trigger] entries[j]).raw == float_lut_entry(
                        average,
                        luma_scaling,
                        mask@,
                        j,
                    ),
                forall|j: int| 0 <= j < i ==> (#[trigger] entries[j]).is_unit(),
            decreases DOMAIN_SIZE - i,
        {
            if full {
                entries.push(Q32::one());
            } else {
                entries.push(mask[i].clamp_unit());
            }
            i = i + 1;
        }
        FloatLut { entries }
    }
}

} // verus!
