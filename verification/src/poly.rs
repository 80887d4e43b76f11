//! The fixed mask polynomial, evaluated exactly.
//!
//! The mask value is `p(x) ^ (y² · s)` where
//! `p(x) = 1 - x·(1.124 + x·(-9.466 + x·(36.624 + x·(-45.47 + x·18.188))))`.
//! The lookup table only ever evaluates `p` at the 257 grid points
//! `x = n / 256` for `n` in `[0, 256]`, and there `p` is an exact rational:
//! all coefficients are multiples of 1/1000. This module computes
//! `p(n/256) · 1000 · 256⁵` in plain integer arithmetic — no rounding at
//! all — and proves that on the grid the polynomial starts at 1, ends at 0,
//! stays inside `[0, 1]` and is strictly decreasing. Those are the exact
//! facts behind the "mask values lie in [0, 1]" invariant and the
//! monotonicity of the lookup table.
//!
//! The range and monotonicity proofs go through explicit sum-of-squares
//! certificates: each polynomial inequality is rewritten as
//! `(positive constant) · claim == (sum of squares) + (positive constant)`,
//! a ring identity that the nonlinear solver checks directly.

use vstd::prelude::*;

verus! {

/// `p(0) · 1000 · 256⁵`, the scaled encoding of the value 1.
pub const POLY_ONE: i64 = 1099511627776000;

/// `p(n/256) · 1000 · 256⁵`, exactly.
///
/// Written in Horner form over the scaled integer coefficients:
/// `1124·256⁴`, `-9466·256³`, `36624·256²`, `-45470·256`, `18188`
/// (the decimal coefficients of `p`, each multiplied by 1000 and by the
/// power of 256 that clears its share of the denominator).
pub open spec fn poly_at(n: int) -> int {
    1099511627776000
        - n * (4827543240704
            + n * (-158813126656 + n * (2400190464 + n * (-11640320 + n * 18188))))
}

/// The inner Horner factor of `poly_at` is non-negative for every integer.
///
/// Certificate: with `a = 20n² - 6400n + 262144` and
/// `r = 24380702720n² - 2496449740800n + 681147453407232`,
/// `400 · h == 18188 · a² + r`, and `r > 0` because
/// `97522810880 · r` is a square plus a positive constant.
proof fn lemma_horner_nonneg(n: int)
    ensures
        0 <= 4827543240704
            + n * (-158813126656 + n * (2400190464 + n * (-11640320 + n * 18188))),
{
    let h: int = 4827543240704
        + n * (-158813126656 + n * (2400190464 + n * (-11640320 + n * 18188)));
    let a: int = 20 * n * n - 6400 * n + 262144;
    let r: int = 24380702720 * n * n - 2496449740800 * n + 681147453407232;
    let s: int = 48761405440 * n - 2496449740800;
    assert(400 * h == 18188 * (a * a) + r) by (nonlinear_arith)
        requires
            h == 4827543240704
                + n * (-158813126656 + n * (2400190464 + n * (-11640320 + n * 18188))),
            a == 20 * n * n - 6400 * n + 262144,
            r == 24380702720 * n * n - 2496449740800 * n + 681147453407232,
    ;
    assert(97522810880 * r == s * s + 60195152971686710775644160) by (nonlinear_arith)
        requires
            r == 24380702720 * n * n - 2496449740800 * n + 681147453407232,
            s == 48761405440 * n - 2496449740800,
    ;
    assert(0 <= a * a) by (nonlinear_arith);
    assert(0 <= s * s) by (nonlinear_arith);
    assert(0 <= 18188 * (a * a));
}

/// On the grid, the polynomial never exceeds its value at 0.
pub proof fn lemma_poly_upper(n: int)
    requires
        0 <= n,
    ensures
        poly_at(n) <= POLY_ONE,
{
    lemma_horner_nonneg(n);
    let h: int = 4827543240704
        + n * (-158813126656 + n * (2400190464 + n * (-11640320 + n * 18188)));
    assert(0 <= n * h) by (nonlinear_arith)
        requires
            0 <= n,
            0 <= h,
    ;
}

/// The quotient `p(x)·1000 / (1 - x)`, scaled to the grid, is non-negative
/// for every integer.
///
/// `1000·p(x)` has an exact root at `x = 1`, so it factors as
/// `(1 - x) · S(x)`; this is the certificate that `S` (in grid scaling)
/// is non-negative everywhere.
proof fn lemma_cofactor_nonneg(n: int)
    ensures
        0 <= 4294967296000
            + n * (-2080374784 + n * (612237312 + n * (-6984192 + n * 18188))),
{
    let f: int = 4294967296000
        + n * (-2080374784 + n * (612237312 + n * (-6984192 + n * 18188)));
    let a: int = 20 * n * n - 3840 * n - 131072;
    let r: int = 72059453440 * n * n - 19140790190080 * n + 1405519457681408;
    let s: int = 144118906880 * n - 19140790190080;
    assert(400 * f == 18188 * (a * a) + r) by (nonlinear_arith)
        requires
            f == 4294967296000
                + n * (-2080374784 + n * (612237312 + n * (-6984192 + n * 18188))),
            a == 20 * n * n - 3840 * n - 131072,
            r == 72059453440 * n * n - 19140790190080 * n + 1405519457681408,
    ;
    assert(288237813760 * r == s * s + 38754006578567117988167680) by (nonlinear_arith)
        requires
            r == 72059453440 * n * n - 19140790190080 * n + 1405519457681408,
            s == 144118906880 * n - 19140790190080,
    ;
    assert(0 <= a * a) by (nonlinear_arith);
    assert(0 <= s * s) by (nonlinear_arith);
    assert(0 <= 18188 * (a * a));
}

/// On the grid, the polynomial never goes below its value at 256 (zero).
pub proof fn lemma_poly_lower(n: int)
    requires
        0 <= n <= 256,
    ensures
        0 <= poly_at(n),
{
    lemma_cofactor_nonneg(n);
    let f: int = 4294967296000
        + n * (-2080374784 + n * (612237312 + n * (-6984192 + n * 18188)));
    assert(1099511627776000
        - n * (4827543240704
            + n * (-158813126656 + n * (2400190464 + n * (-11640320 + n * 18188))))
        == (256 - n) * f) by (nonlinear_arith)
        requires
            f == 4294967296000
                + n * (-2080374784 + n * (612237312 + n * (-6984192 + n * 18188))),
    ;
    assert(0 <= (256 - n) * f) by (nonlinear_arith)
        requires
            n <= 256,
            0 <= f,
    ;
}

/// Each grid step strictly lowers the polynomial.
///
/// Certificate: the difference `poly_at(n) - poly_at(n+1)` is a quartic in
/// `n` that equals `90940·(n² - 255n + 6500)²` plus a positive-definite
/// quadratic, so it is positive for every integer `n`.
pub proof fn lemma_poly_step_decreasing(n: int)
    ensures
        poly_at(n + 1) < poly_at(n),
{
    let q: int = n * n - 255 * n + 6500;
    let r: int = 35317852 * n * n - 9006052260 * n + 828903682380;
    let s: int = 70635704 * n - 9006052260;
    let m: int = n + 1;
    assert((1099511627776000
        - n * (4827543240704
            + n * (-158813126656 + n * (2400190464 + n * (-11640320 + n * 18188)))))
        - (1099511627776000
            - m * (4827543240704
                + m * (-158813126656 + m * (2400190464 + m * (-11640320 + m * 18188)))))
        == 90940 * (q * q) + r) by (nonlinear_arith)
        requires
            m == n + 1,
            q == n * n - 255 * n + 6500,
            r == 35317852 * n * n - 9006052260 * n + 828903682380,
    ;
    assert(141271408 * r == s * s + 35991412996356283440) by (nonlinear_arith)
        requires
            r == 35317852 * n * n - 9006052260 * n + 828903682380,
            s == 70635704 * n - 9006052260,
    ;
    assert(0 <= q * q) by (nonlinear_arith);
    assert(0 <= s * s) by (nonlinear_arith);
    assert(0 <= 90940 * (q * q));
}

/// The grid endpoints are exact: the polynomial opens at 1 and closes at 0.
pub proof fn lemma_poly_endpoints()
    ensures
        poly_at(0) == POLY_ONE,
        poly_at(256) == 0,
{
    assert(poly_at(256) == 0) by (nonlinear_arith);
}

/// The polynomial is strictly decreasing over the whole grid.
pub proof fn lemma_poly_antitone(n: int, m: int)
    requires
        0 <= n <= m,
    ensures
        poly_at(m) <= poly_at(n),
        n < m ==> poly_at(m) < poly_at(n),
    decreases m - n,
{
    if n < m {
        lemma_poly_step_decreasing(m - 1);
        lemma_poly_antitone(n, m - 1);
    }
}

/// Exact evaluation of the scaled polynomial on the grid.
pub fn poly_scaled(n: usize) -> (r: i64)
    requires
        n <= 256,
    ensures
        r == poly_at(n as int),
        0 <= r <= POLY_ONE,
{
    let k: i64 = n as i64;
    let t4: i64 = -11640320 + k * 18188;
    proof {
        assert(-2979921920 <= k * t4 <= 0) by (nonlinear_arith)
            requires
                0 <= k <= 256,
                -11640320 <= t4 <= -6984192,
        ;
    }
    let t3: i64 = 2400190464 + k * t4;
    proof {
        assert(-148411252736 <= k * t3 <= 614448758784) by (nonlinear_arith)
            requires
                0 <= k <= 256,
                -579731456 <= t3 <= 2400190464,
        ;
    }
    let t2: i64 = -158813126656 + k * t3;
    proof {
        assert(-78649441124352 <= k * t2 <= 116642721824768) by (nonlinear_arith)
            requires
                0 <= k <= 256,
                -307224379392 <= t2 <= 455635632128,
        ;
    }
    let t1: i64 = 4827543240704 + k * t2;
    proof {
        assert(-18898405858213888 <= k * t1 <= 31096387856760832) by (nonlinear_arith)
            requires
                0 <= k <= 256,
                -73821897883648 <= t1 <= 121470265065472,
        ;
    }
    let r: i64 = 1099511627776000 - k * t1;
    proof {
        lemma_poly_upper(n as int);
        lemma_poly_lower(n as int);
    }
    r
}

} // verus!
