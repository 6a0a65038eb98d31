//! Fixed-point arithmetic in micro-units: a quantity `q` stands for the real
//! number `q / ONE`. Every operation has an exact functional description, so
//! callers can pin their results down to the integer.

use vstd::prelude::*;
use vstd::arithmetic::div_mod::lemma_div_is_ordered;
use vstd::arithmetic::div_mod::lemma_div_is_ordered_by_denominator;

verus! {

/// One model unit in micro-units.
pub const ONE: i128 = 1_000_000;

/// Largest magnitude accepted by `fmul`; products of two such operands
/// stay far inside the `i128` range.
pub const FIX_MAX: i128 = 100_000_000_000_000_000;

/// Largest magnitude accepted by `fdiv` for the dividend.
pub const DIV_MAX: i128 = 1_000_000_000_000_000_000;

/// Largest input accepted by `isqrt`.
pub const SQRT_MAX: u128 = 1_000_000_000_000_000_000_000_000_000_000_000;

/// Largest input accepted by `sqrt_fixed`.
pub const SFIX_MAX: i128 = 1_000_000_000_000_000_000_000_000_000;

/// Fixed-point product `a * b / ONE`, truncated toward zero.
pub open spec fn fmul_m(a: int, b: int) -> int {
    if a * b >= 0 {
        (a * b) / (ONE as int)
    } else {
        -((-(a * b)) / (ONE as int))
    }
}

/// Fixed-point quotient `a * ONE / b`, truncated toward zero.
pub open spec fn fdiv_m(a: int, b: int) -> int {
    if a >= 0 {
        (a * ONE) / b
    } else {
        -((-a * ONE) / b)
    }
}

/// The integer square root: the unique `r` with `r * r <= x < (r + 1) * (r + 1)`.
pub open spec fn isqrt_m(x: int) -> int {
    choose|r: int| 0 <= r && #[trigger] (r * r) <= x < (r + 1) * (r + 1)
}

/// Square root of a fixed-point quantity, in fixed-point units.
pub open spec fn sqrt_m(v: int) -> int {
    isqrt_m(v * ONE)
}

/// An integer square root exists for every nonnegative argument.
pub proof fn lemma_isqrt_exists(x: nat)
    ensures
        exists|r: int| 0 <= r && #[trigger] (r * r) <= x < (r + 1) * (r + 1),
    decreases x,
{
    if x == 0 {
        assert(0 * 0 <= 0 < (0 + 1) * (0 + 1)) by (nonlinear_arith);
    } else {
        lemma_isqrt_exists((x - 1) as nat);
        let r = choose|r: int| 0 <= r && #[trigger] (r * r) <= x - 1 < (r + 1) * (r + 1);
        if x < (r + 1) * (r + 1) {
            assert(r * r <= x < (r + 1) * (r + 1));
        } else {
            assert(x == (r + 1) * (r + 1));
            assert((r + 1) * (r + 1) <= x < (r + 2) * (r + 2)) by (nonlinear_arith)
                requires
                    x == (r + 1) * (r + 1),
                    r >= 0;
        }
    }
}

/// Any two integer square roots of the same argument agree.
pub proof fn lemma_isqrt_unique(x: int, r1: int, r2: int)
    requires
        0 <= r1 && r1 * r1 <= x < (r1 + 1) * (r1 + 1),
        0 <= r2 && r2 * r2 <= x < (r2 + 1) * (r2 + 1),
    ensures
        r1 == r2,
{
    assert(r1 == r2) by (nonlinear_arith)
        requires
            0 <= r1 && r1 * r1 <= x < (r1 + 1) * (r1 + 1),
            0 <= r2 && r2 * r2 <= x < (r2 + 1) * (r2 + 1);
}

/// A witness to `r * r <= x < (r + 1) * (r + 1)` equals `isqrt_m(x)`.
pub proof fn lemma_isqrt_is(x: int, r: int)
    requires
        0 <= r && r * r <= x < (r + 1) * (r + 1),
    ensures
        r == isqrt_m(x),
{
    lemma_isqrt_exists(x as nat);
    lemma_isqrt_unique(x, r, isqrt_m(x));
}

/// Magnitude bound for a fixed-point product of bounded operands.
pub proof fn lemma_fmul_bound(a: int, b: int, m: int, n: int)
    requires
        -m <= a <= m,
        -n <= b <= n,
        0 <= m,
        0 <= n,
    ensures
        -((m * n) / (ONE as int)) <= fmul_m(a, b) <= (m * n) / (ONE as int),
{
    assert(-(m * n) <= a * b <= m * n) by (nonlinear_arith)
        requires
            -m <= a <= m,
            -n <= b <= n,
            0 <= m,
            0 <= n;
    if a * b >= 0 {
        lemma_div_is_ordered(a * b, m * n, ONE as int);
        assert((a * b) / (ONE as int) >= 0) by (nonlinear_arith)
            requires
                a * b >= 0;
    } else {
        lemma_div_is_ordered(-(a * b), m * n, ONE as int);
        assert((-(a * b)) / (ONE as int) >= 0) by (nonlinear_arith)
            requires
                -(a * b) >= 0;
    }
}

/// Nonnegative operands give a nonnegative fixed-point product.
pub proof fn lemma_fmul_nonneg(a: int, b: int)
    requires
        0 <= a,
        0 <= b,
    ensures
        0 <= fmul_m(a, b),
{
    assert(a * b >= 0) by (nonlinear_arith)
        requires
            0 <= a,
            0 <= b;
    assert((a * b) / (ONE as int) >= 0) by (nonlinear_arith)
        requires
            a * b >= 0;
}

/// A fixed-point square is never negative.
pub proof fn lemma_fmul_self_nonneg(a: int)
    ensures
        0 <= fmul_m(a, a),
{
    assert(a * a >= 0) by (nonlinear_arith);
    assert((a * a) / (ONE as int) >= 0) by (nonlinear_arith)
        requires
            a * a >= 0;
}

/// Negating one operand negates a fixed-point product.
pub proof fn lemma_fmul_neg_left(a: int, b: int)
    ensures
        fmul_m(-a, b) == -fmul_m(a, b),
{
    assert((-a) * b == -(a * b)) by (nonlinear_arith);
}

/// Crude range of a fixed-point quotient with nonnegative dividend.
pub proof fn lemma_fdiv_pos_bound(a: int, b: int)
    requires
        0 <= a,
        1 <= b,
    ensures
        0 <= fdiv_m(a, b) <= a * ONE,
{
    assert(0 <= a * ONE) by (nonlinear_arith)
        requires
            0 <= a;
    lemma_div_is_ordered_by_denominator(a * ONE, 1, b);
    assert((a * ONE) / 1 == a * ONE);
    assert((a * ONE) / b >= 0) by (nonlinear_arith)
        requires
            0 <= a * ONE,
            1 <= b;
}

/// Fixed-point multiplication: `a * b` in model units.
pub fn fmul(a: i128, b: i128) -> (r: i128)
    requires
        -FIX_MAX <= a <= FIX_MAX,
        -FIX_MAX <= b <= FIX_MAX,
    ensures
        r == fmul_m(a as int, b as int),
{
    let neg: bool = (a < 0) != (b < 0);
    let ua: i128 = if a < 0 { -a } else { a };
    let ub: i128 = if b < 0 { -b } else { b };
    proof {
        assert((ua as int) * (ub as int) <= FIX_MAX * FIX_MAX) by (nonlinear_arith)
            requires
                0 <= ua <= FIX_MAX,
                0 <= ub <= FIX_MAX;
        if a >= 0 && b >= 0 {
            assert((ua as int) * (ub as int) == a * b && a * b >= 0) by (nonlinear_arith)
                requires
                    ua == a,
                    ub == b,
                    a >= 0,
                    b >= 0;
        } else if a < 0 && b < 0 {
            assert((ua as int) * (ub as int) == a * b && a * b >= 0) by (nonlinear_arith)
                requires
                    ua == -a,
                    ub == -b,
                    a < 0,
                    b < 0;
        } else {
            assert((ua as int) * (ub as int) == -(a * b) && a * b <= 0) by (nonlinear_arith)
                requires
                    ua == if a < 0 { -a as int } else { a as int },
                    ub == if b < 0 { -b as int } else { b as int },
                    (a < 0 && b >= 0) || (a >= 0 && b < 0);
        }
    }
    let p: u128 = (ua as u128) * (ub as u128);
    let q: u128 = p / 1_000_000;
    proof {
        lemma_div_is_ordered(p as int, FIX_MAX * FIX_MAX, ONE as int);
    }
    let qi: i128 = q as i128;
    if neg {
        -qi
    } else {
        qi
    }
}

/// Fixed-point division: `a / b` in model units; `b` must be positive.
pub fn fdiv(a: i128, b: i128) -> (r: i128)
    requires
        -DIV_MAX <= a <= DIV_MAX,
        1 <= b,
    ensures
        r == fdiv_m(a as int, b as int),
{
    let neg: bool = a < 0;
    let ua: i128 = if a < 0 { -a } else { a };
    let p: u128 = (ua as u128) * 1_000_000;
    let q: u128 = p / (b as u128);
    proof {
        lemma_div_is_ordered(p as int, DIV_MAX * (ONE as int), 1);
        lemma_div_is_ordered_by_denominator(p as int, 1, b as int);
    }
    let qi: i128 = q as i128;
    if neg {
        -qi
    } else {
        qi
    }
}

/// Integer square root by bisection.
pub fn isqrt(x: u128) -> (r: u128)
    requires
        x <= SQRT_MAX,
    ensures
        r * r <= x < (r + 1) * (r + 1),
        r == isqrt_m(x as int),
        r <= 100_000_000_000_000_000,
{
    let mut lo: u128 = 0;
    let mut hi: u128 = 100_000_000_000_000_001;
    proof {
        assert((100_000_000_000_000_001 as int) * (100_000_000_000_000_001 as int) > SQRT_MAX as int) by (nonlinear_arith);
    }
    while hi - lo > 1
        invariant
            lo < hi <= 100_000_000_000_000_001,
            lo * lo <= x,
            x < hi * hi,
        decreases hi - lo,
    {
        let mid: u128 = lo + (hi - lo) / 2;
        proof {
            assert(mid * mid <= 100_000_000_000_000_001 * 100_000_000_000_000_001) by (nonlinear_arith)
                requires
                    0 <= mid <= 100_000_000_000_000_001;
        }
        if mid * mid <= x {
            lo = mid;
        } else {
            hi = mid;
        }
    }
    proof {
        lemma_isqrt_is(x as int, lo as int);
    }
    lo
}

/// Square root of a nonnegative fixed-point quantity.
pub fn sqrt_fixed(v: i128) -> (r: i128)
    requires
        0 <= v <= SFIX_MAX,
    ensures
        r == sqrt_m(v as int),
        0 <= r <= 100_000_000_000_000_000,
        r * r <= v * ONE < (r + 1) * (r + 1),
{
    let x: u128 = (v as u128) * 1_000_000;
    let r = isqrt(x);
    r as i128
}

} // verus!
