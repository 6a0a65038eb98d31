//! Trigonometric and logarithmic kernels over fixed-point values.
//!
//! Angles are measured in turn units: `ONE` is a full revolution. Sine and
//! cosine reduce the angle to a quadrant and evaluate an odd polynomial on
//! the first quarter turn, so the half-turn symmetry `sin(a + half) ==
//! -sin(a)` holds exactly — the layout of colliding galaxies depends on it.
//! The negated logarithm drives the exponential radius sampling.

use vstd::prelude::*;
use crate::fixed::{
    fmul, fmul_m, fdiv, fdiv_m, ONE, lemma_fmul_bound, lemma_fmul_nonneg,
};
use vstd::arithmetic::div_mod::{
    lemma_add_mod_noop, lemma_fundamental_div_mod, lemma_fundamental_div_mod_converse,
    lemma_mod_bound, lemma_small_mod, lemma_div_is_ordered_by_denominator,
};
use vstd::arithmetic::power2::{pow2, lemma_pow2_unfold, lemma_pow2_strictly_increases, lemma2_to64};

verus! {

/// A quarter revolution in turn units.
pub const QUARTER_TURN: i128 = 250_000;

/// Half a revolution in turn units.
pub const HALF_TURN: i128 = 500_000;

/// Two pi in fixed-point radians.
pub const TWO_PI: i128 = 6_283_185;

/// The natural logarithm of two, in fixed-point.
pub const LN2: i128 = 693_147;

/// Magnitude bound on the sine polynomial's output.
pub const SIN_BOUND: i128 = 2_000_000;

/// Largest angle accepted by the trigonometric entry points.
pub const ANGLE_MAX: i128 = 100_000_000_000_000_000_000;

/// Sine on the first quadrant: the angle `r` is a fraction of a quarter
/// turn, converted to radians and run through the odd Taylor polynomial.
#[verifier::opaque]
pub open spec fn qsin_m(r: int) -> int {
    let x = fmul_m(r, TWO_PI as int);
    let x2 = fmul_m(x, x);
    let x3 = fmul_m(x2, x);
    let x5 = fmul_m(x3, x2);
    let x7 = fmul_m(x5, x2);
    let x9 = fmul_m(x7, x2);
    x - x3 / 6 + x5 / 120 - x7 / 5040 + x9 / 362880
}

/// Sine of an angle in turn units, by quadrant folding.
pub open spec fn sin_m(a: int) -> int {
    let b = a % (ONE as int);
    let q = b / (QUARTER_TURN as int);
    let s = b % (QUARTER_TURN as int);
    if q == 0 {
        qsin_m(s)
    } else if q == 1 {
        qsin_m(QUARTER_TURN - s)
    } else if q == 2 {
        -qsin_m(s)
    } else {
        -qsin_m(QUARTER_TURN - s)
    }
}

/// Cosine of an angle in turn units.
pub open spec fn cos_m(a: int) -> int {
    sin_m(a + QUARTER_TURN)
}

/// Sine polynomial on one quadrant.
pub fn qsin(r: i128) -> (q: i128)
    requires
        0 <= r <= QUARTER_TURN,
    ensures
        q == qsin_m(r as int),
        -SIN_BOUND <= q <= SIN_BOUND,
{
    proof {
        reveal(qsin_m);
        lemma_fmul_nonneg(r as int, TWO_PI as int);
        lemma_fmul_bound(r as int, TWO_PI as int, QUARTER_TURN as int, TWO_PI as int);
    }
    let x = fmul(r, TWO_PI);
    proof {
        lemma_fmul_nonneg(x as int, x as int);
        lemma_fmul_bound(x as int, x as int, 1_570_797, 1_570_797);
    }
    let x2 = fmul(x, x);
    proof {
        lemma_fmul_nonneg(x2 as int, x as int);
        lemma_fmul_bound(x2 as int, x as int, 2_467_404, 1_570_797);
    }
    let x3 = fmul(x2, x);
    proof {
        lemma_fmul_nonneg(x3 as int, x2 as int);
        lemma_fmul_bound(x3 as int, x2 as int, 3_875_791, 2_467_404);
    }
    let x5 = fmul(x3, x2);
    proof {
        lemma_fmul_nonneg(x5 as int, x2 as int);
        lemma_fmul_bound(x5 as int, x2 as int, 9_563_200, 2_467_404);
    }
    let x7 = fmul(x5, x2);
    proof {
        lemma_fmul_nonneg(x7 as int, x2 as int);
        lemma_fmul_bound(x7 as int, x2 as int, 23_597_000, 2_467_404);
    }
    let x9 = fmul(x7, x2);
    let t3 = ((x3 as u128) / 6) as i128;
    let t5 = ((x5 as u128) / 120) as i128;
    let t7 = ((x7 as u128) / 5040) as i128;
    let t9 = ((x9 as u128) / 362880) as i128;
    x - t3 + t5 - t7 + t9
}

/// Sine of a nonnegative angle in turn units.
pub fn sin_turn(a: i128) -> (r: i128)
    requires
        0 <= a <= ANGLE_MAX,
    ensures
        r == sin_m(a as int),
        -SIN_BOUND <= r <= SIN_BOUND,
{
    let bu: u128 = (a as u128) % 1_000_000;
    let qu: u128 = bu / 250_000;
    let su: i128 = (bu % 250_000) as i128;
    proof {
        assert(bu == a as int % (ONE as int));
        assert(qu == (a as int % (ONE as int)) / (QUARTER_TURN as int));
        assert(su == (a as int % (ONE as int)) % (QUARTER_TURN as int));
    }
    if qu == 0 {
        qsin(su)
    } else if qu == 1 {
        qsin(250_000 - su)
    } else if qu == 2 {
        -qsin(su)
    } else {
        -qsin(250_000 - su)
    }
}

/// Cosine of a nonnegative angle in turn units.
pub fn cos_turn(a: i128) -> (r: i128)
    requires
        0 <= a <= ANGLE_MAX - 250_000,
    ensures
        r == cos_m(a as int),
        -SIN_BOUND <= r <= SIN_BOUND,
{
    sin_turn(a + 250_000)
}

/// Shifting an angle by half a turn negates its sine exactly.
pub proof fn lemma_sin_antipodal(a: int)
    requires
        0 <= a,
    ensures
        sin_m(a + HALF_TURN) == -sin_m(a),
{
    let m = ONE as int;
    let qt = QUARTER_TURN as int;
    let h = HALF_TURN as int;
    let b = a % m;
    lemma_mod_bound(a, m);
    lemma_add_mod_noop(a, h, m);
    lemma_small_mod(h as nat, m as nat);
    assert((a + h) % m == (b + h) % m);
    let q = b / qt;
    let s = b % qt;
    lemma_fundamental_div_mod(b, qt);
    lemma_mod_bound(b, qt);
    assert(0 <= q <= 3) by {
        lemma_fundamental_div_mod(b, qt);
        assert(b == q * qt + s);
        assert(0 <= b < m);
        assert(0 <= s < qt);
        assert(q < 4) by (nonlinear_arith)
            requires
                b == q * qt + s,
                0 <= b < 4 * qt,
                0 <= s < qt,
                qt > 0;
        assert(q >= 0) by (nonlinear_arith)
            requires
                b == q * qt + s,
                0 <= b,
                0 <= s < qt,
                qt > 0;
    };
    if b < h {
        lemma_small_mod((b + h) as nat, m as nat);
        assert((b + h) % m == b + h);
        lemma_fundamental_div_mod_converse(b + h, qt, q + 2, s);
        assert((b + h) / qt == q + 2);
        assert((b + h) % qt == s);
    } else {
        lemma_fundamental_div_mod_converse(b + h, m, 1, b - h);
        assert((b + h) % m == b - h);
        lemma_fundamental_div_mod_converse(b - h, qt, q - 2, s);
        assert((b - h) / qt == q - 2);
        assert((b - h) % qt == s);
    }
}

/// Shifting an angle by half a turn negates its cosine exactly.
pub proof fn lemma_cos_antipodal(a: int)
    requires
        0 <= a,
    ensures
        cos_m(a + HALF_TURN) == -cos_m(a),
{
    lemma_sin_antipodal(a + QUARTER_TURN);
}

/// Bound on the negated-logarithm kernel's output.
pub const NEG_LN_MAX: i128 = 14_000_000;

/// Normalization for the logarithm: repeatedly double a fraction in
/// `[1, ONE]` until it reaches `[ONE, 2 * ONE)`, counting the doublings.
pub open spec fn norm_m(u: int) -> (int, int)
    decreases 2 * (ONE as int) - u,
{
    if u <= 0 || u >= ONE {
        (u, 0)
    } else {
        let (m, k) = norm_m(2 * u);
        (m, k + 1)
    }
}

/// `-ln(u / ONE)` in fixed-point, for `u` in `[1, ONE]`: the doubling count
/// contributes `k * ln 2` and the mantissa's logarithm is an arctanh series.
/// A negative rounding residue is clamped to zero, since the true value is
/// never negative on this range.
#[verifier::opaque]
pub open spec fn negln_m(u: int) -> int {
    let (m, k) = norm_m(u);
    let t = fdiv_m(m - ONE, m + ONE);
    let t2 = fmul_m(t, t);
    let t3 = fmul_m(t2, t);
    let t5 = fmul_m(t3, t2);
    let t7 = fmul_m(t5, t2);
    let t9 = fmul_m(t7, t2);
    let lnm = 2 * (t + t3 / 3 + t5 / 5 + t7 / 7 + t9 / 9);
    let raw = k * LN2 - lnm;
    if raw < 0 {
        0
    } else {
        raw
    }
}

/// `-ln(u / ONE)` in fixed-point, for a positive fraction of a unit.
pub fn neg_ln_unit(u: i128) -> (r: i128)
    requires
        1 <= u <= ONE,
    ensures
        r == negln_m(u as int),
        0 <= r <= NEG_LN_MAX,
{
    let mut m: i128 = u;
    let mut k: i128 = 0;
    proof {
        reveal(negln_m);
        lemma2_to64();
    }
    while m < ONE
        invariant
            1 <= m < 2 * ONE,
            0 <= k <= 20,
            pow2(k as nat) <= m,
            norm_m(u as int).0 == norm_m(m as int).0,
            norm_m(u as int).1 == norm_m(m as int).1 + k,
        decreases 2 * (ONE as int) - m,
    {
        proof {
            lemma_pow2_unfold((k + 1) as nat);
            if k >= 20 {
                if k > 20 {
                    lemma_pow2_strictly_increases(20, k as nat);
                }
                assert(pow2(20) == 0x100000) by {
                    lemma2_to64();
                }
                assert(false);
            }
        }
        m = 2 * m;
        k = k + 1;
    }
    proof {
        assert(norm_m(m as int) == (m as int, 0int));
        assert(norm_m(u as int) == (m as int, k as int));
    }
    let t = fdiv(m - ONE, m + ONE);
    proof {
        assert(fdiv_m((m - ONE) as int, (m + ONE) as int) >= 0) by {
            assert(((m - ONE) as int * (ONE as int)) / ((m + ONE) as int) >= 0) by (nonlinear_arith)
                requires
                    m >= ONE,
            ;
        }
        assert(t <= 500_000) by {
            let num = (m - ONE) as int * (ONE as int);
            lemma_div_is_ordered_by_denominator(num, 2 * (ONE as int), (m + ONE) as int);
            assert(num / (2 * (ONE as int)) <= 500_000) by (nonlinear_arith)
                requires
                    num == (m - ONE) as int * (ONE as int),
                    ONE <= m < 2 * ONE,
            ;
        }
    }
    proof {
        lemma_fmul_nonneg(t as int, t as int);
        lemma_fmul_bound(t as int, t as int, 500_000, 500_000);
    }
    let t2 = fmul(t, t);
    proof {
        lemma_fmul_nonneg(t2 as int, t as int);
        lemma_fmul_bound(t2 as int, t as int, 250_000, 500_000);
    }
    let t3 = fmul(t2, t);
    proof {
        lemma_fmul_nonneg(t3 as int, t2 as int);
        lemma_fmul_bound(t3 as int, t2 as int, 125_000, 250_000);
    }
    let t5 = fmul(t3, t2);
    proof {
        lemma_fmul_nonneg(t5 as int, t2 as int);
        lemma_fmul_bound(t5 as int, t2 as int, 31_250, 250_000);
    }
    let t7 = fmul(t5, t2);
    proof {
        lemma_fmul_nonneg(t7 as int, t2 as int);
        lemma_fmul_bound(t7 as int, t2 as int, 7_813, 250_000);
    }
    let t9 = fmul(t7, t2);
    let lnm: i128 = 2 * (t + ((t3 as u128) / 3) as i128 + ((t5 as u128) / 5) as i128
        + ((t7 as u128) / 7) as i128 + ((t9 as u128) / 9) as i128);
    let raw: i128 = k * LN2 - lnm;
    if raw < 0 {
        0
    } else {
        raw
    }
}

} // verus!
