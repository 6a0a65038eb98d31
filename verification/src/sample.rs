//! The density-profile samplers: each draws a relative offset from a
//! galaxy's center according to the morphology's distribution.
//!
//! Elliptical bulge and disk offsets come from exponential radial profiles
//! with rejection on a magnitude band; spiral bulge offsets from a Gaussian
//! cloud with the same kind of band; spiral arm offsets deterministically
//! from the particle index, scattered by a Gaussian deviation. Every
//! function's result is pinned to a functional model of the draw sequence,
//! and accepted offsets carry their magnitude bounds in the contract.

use vstd::prelude::*;
use crate::fixed::{
    fmul, fmul_m, sqrt_fixed, sqrt_m, ONE, lemma_fmul_bound, lemma_fmul_nonneg,
    lemma_fmul_self_nonneg,
};
use crate::series::{
    sin_m, cos_m, sin_turn, cos_turn, negln_m, neg_ln_unit, SIN_BOUND, NEG_LN_MAX, TWO_PI,
    HALF_TURN,
};
use crate::rng::{RandomSource, next_state_m, unit_m, unit_pos_m};
use vstd::arithmetic::div_mod::{lemma_div_is_ordered, lemma_div_multiples_vanish_quotient};
use crate::particle::{Vec3, V3m, v3_bounded, mag2_m};
use crate::params::SimParams;

verus! {

/// Retry cap of every rejection-sampling loop; past it the generation run
/// fails with a sampling-exhausted error instead of stalling.
pub const MAX_TRIES: u32 = 10_000;

/// Squared magnitude of the outer acceptance radius (0.6 model units).
pub const R2_MAX: i128 = 360_000;

/// Squared magnitude of the inner acceptance radius (0.02 model units).
pub const R2_MIN: i128 = 400;

/// Squared magnitude of the spiral bulge's outer radius (0.3 model units).
pub const SPIRAL_R2_MAX: i128 = 90_000;

/// Fraction of spiral particles that belong to the bulge cloud.
pub const SPIRAL_BULGE_FRACTION: i128 = 200_000;

/// Magnitude bound on any coordinate a sampler can produce.
pub const SAMPLE_BOUND: i128 = 18_000_000_000_000_000;

/// Magnitude bound on the in-plane coordinates a sampler can produce.
pub const PLANE_BOUND: i128 = 100_000_000_000_000;

/// Both in-plane coordinates within `b` of zero.
pub open spec fn xy_bounded(a: V3m, b: int) -> bool {
    &&& -b <= a.x <= b
    &&& -b <= a.y <= b
}

/// One Gaussian draw of standard deviation `sigma`, by the polar method:
/// `sqrt(-2 ln u) * cos(v)` over two uniform draws.
pub open spec fn gauss_m(sigma: int, s: u64) -> (int, u64) {
    let u = unit_pos_m(s);
    let s1 = next_state_m(s);
    let v = unit_m(s1);
    let s2 = next_state_m(s1);
    let amp = sqrt_m(2 * negln_m(u));
    let z = fmul_m(amp, cos_m(v));
    (fmul_m(sigma, z), s2)
}

/// Magnitude bound on a Gaussian draw with standard deviation up to one
/// thousand model units.
pub const GAUSS_BOUND: i128 = 11_000_000_000_000;

/// Draw one Gaussian deviate of standard deviation `sigma`.
#[verifier::rlimit(60)]
pub fn gauss(sigma: i128, rng: &mut RandomSource) -> (g: i128)
    requires
        1 <= sigma <= 1_000_000_000,
    ensures
        (g as int, final(rng).state) == gauss_m(sigma as int, old(rng).state),
        -GAUSS_BOUND <= g <= GAUSS_BOUND,
{
    let u = rng.next_unit_pos();
    let v = rng.next_unit();
    let nl = neg_ln_unit(u);
    let amp = sqrt_fixed(2 * nl);
    proof {
        assert(amp <= 5_300_000) by (nonlinear_arith)
            requires
                0 <= amp,
                amp * amp <= 28_000_000_000_000,
        ;
    }
    let c = cos_turn(v);
    proof {
        lemma_fmul_bound(amp as int, c as int, 5_300_000, SIN_BOUND as int);
    }
    let z = fmul(amp, c);
    proof {
        lemma_fmul_bound(sigma as int, z as int, 1_000_000_000, 10_600_000);
    }
    fmul(sigma, z)
}

/// One candidate offset for an elliptical bulge particle: an exponential
/// radius in a uniformly random spatial direction.
pub open spec fn ell_bulge_try_m(p: SimParams, s: u64) -> (V3m, u64) {
    let u1 = unit_pos_m(s);
    let s1 = next_state_m(s);
    let th = unit_m(s1);
    let s2 = next_state_m(s1);
    let u3 = unit_m(s2);
    let s3 = next_state_m(s2);
    let r = fmul_m(p.bulge_scale_radius as int, negln_m(u1));
    let cp = 2 * u3 - ONE;
    let sp = sqrt_m(ONE - fmul_m(cp, cp));
    (V3m {
        x: fmul_m(r, fmul_m(sp, cos_m(th))),
        y: fmul_m(r, fmul_m(sp, sin_m(th))),
        z: fmul_m(r, cp),
    }, s3)
}

/// Draw one elliptical bulge candidate.
#[verifier::rlimit(60)]
pub fn ell_bulge_try(p: &SimParams, rng: &mut RandomSource) -> (v: Vec3)
    requires
        p.wf(),
    ensures
        (v@, final(rng).state) == ell_bulge_try_m(*p, old(rng).state),
        v3_bounded(v@, SAMPLE_BOUND as int),
        xy_bounded(v@, PLANE_BOUND as int),
{
    let u1 = rng.next_unit_pos();
    let th = rng.next_unit();
    let u3 = rng.next_unit();
    let nl = neg_ln_unit(u1);
    proof {
        lemma_fmul_nonneg(p.bulge_scale_radius as int, nl as int);
        lemma_fmul_bound(p.bulge_scale_radius as int, nl as int, 1_000_000_000, NEG_LN_MAX as int);
    }
    let r = fmul(p.bulge_scale_radius, nl);
    let cp = 2 * u3 - ONE;
    proof {
        lemma_fmul_self_nonneg(cp as int);
        lemma_fmul_bound(cp as int, cp as int, ONE as int, ONE as int);
    }
    let cp2 = fmul(cp, cp);
    let sp = sqrt_fixed(ONE - cp2);
    proof {
        assert(sp <= 1_000_000) by (nonlinear_arith)
            requires
                0 <= sp,
                sp * sp <= 1_000_000_000_000,
        ;
    }
    let c = cos_turn(th);
    let sn = sin_turn(th);
    proof {
        lemma_fmul_bound(sp as int, c as int, 1_000_000, SIN_BOUND as int);
        lemma_fmul_bound(sp as int, sn as int, 1_000_000, SIN_BOUND as int);
        lemma_fmul_bound(r as int, fmul_m(sp as int, c as int), 14_000_000_000, 2_000_000);
        lemma_fmul_bound(r as int, fmul_m(sp as int, sn as int), 14_000_000_000, 2_000_000);
        lemma_fmul_bound(r as int, cp as int, 14_000_000_000, ONE as int);
    }
    Vec3 {
        x: fmul(r, fmul(sp, c)),
        y: fmul(r, fmul(sp, sn)),
        z: fmul(r, cp),
    }
}

/// Rejection sampling of an elliptical bulge offset: candidates are drawn
/// until one lies inside the outer radius, up to `tries` attempts.
pub open spec fn ell_bulge_m(p: SimParams, s: u64, tries: nat) -> (Option<V3m>, u64)
    decreases tries,
{
    if tries == 0 {
        (None::<V3m>, s)
    } else {
        let (v, s1) = ell_bulge_try_m(p, s);
        if mag2_m(v) <= R2_MAX {
            (Some(v), s1)
        } else {
            ell_bulge_m(p, s1, (tries - 1) as nat)
        }
    }
}

/// The model of an optional offset.
pub open spec fn opt_v3m(o: Option<Vec3>) -> Option<V3m> {
    match o {
        Some(v) => Some(v@),
        None => None,
    }
}

/// Sample an elliptical bulge offset, or report exhaustion.
pub fn sample_ell_bulge(p: &SimParams, rng: &mut RandomSource) -> (o: Option<Vec3>)
    requires
        p.wf(),
    ensures
        ({
            let (om, s2) = ell_bulge_m(*p, old(rng).state, MAX_TRIES as nat);
            &&& opt_v3m(o) == om
            &&& final(rng).state == s2
        }),
        o is Some ==> mag2_m(o->Some_0@) <= R2_MAX && v3_bounded(o->Some_0@, SAMPLE_BOUND as int)
            && xy_bounded(o->Some_0@, PLANE_BOUND as int),
{
    let ghost s0 = rng.state;
    let mut t: u32 = 0;
    while t < MAX_TRIES
        invariant
            p.wf(),
            t <= MAX_TRIES,
            s0 == old(rng).state,
            ell_bulge_m(*p, s0, MAX_TRIES as nat) == ell_bulge_m(*p, rng.state, (MAX_TRIES - t) as nat),
        decreases MAX_TRIES - t,
    {
        let ghost s_it = rng.state;
        let v = ell_bulge_try(p, rng);
        let m2 = v.mag2();
        proof {
            assert(ell_bulge_m(*p, s_it, (MAX_TRIES - t) as nat) == (if mag2_m(v@) <= R2_MAX {
                (Some(v@), rng.state)
            } else {
                ell_bulge_m(*p, rng.state, (MAX_TRIES - t - 1) as nat)
            }));
        }
        if m2 <= R2_MAX {
            return Some(v);
        }
        t = t + 1;
    }
    None
}

/// One candidate offset for an elliptical disk particle: an exponential
/// in-plane radius at a uniform angle, with a heavier-than-Gaussian
/// vertical offset.
pub open spec fn ell_disk_try_m(p: SimParams, s: u64) -> (V3m, u64) {
    let u1 = unit_pos_m(s);
    let s1 = next_state_m(s);
    let th = unit_m(s1);
    let s2 = next_state_m(s1);
    let u3 = unit_m(s2);
    let s3 = next_state_m(s2);
    let u4 = unit_pos_m(s3);
    let s4 = next_state_m(s3);
    let r = fmul_m(p.disk_scale_radius as int, negln_m(u1));
    let w = 2 * u3 - ONE;
    let z = fmul_m(p.disk_scale_height as int, fmul_m(w, sqrt_m(negln_m(u4))));
    (V3m { x: fmul_m(r, cos_m(th)), y: fmul_m(r, sin_m(th)), z }, s4)
}

/// Draw one elliptical disk candidate.
#[verifier::rlimit(60)]
pub fn ell_disk_try(p: &SimParams, rng: &mut RandomSource) -> (v: Vec3)
    requires
        p.wf(),
    ensures
        (v@, final(rng).state) == ell_disk_try_m(*p, old(rng).state),
        v3_bounded(v@, SAMPLE_BOUND as int),
        xy_bounded(v@, PLANE_BOUND as int),
{
    let u1 = rng.next_unit_pos();
    let th = rng.next_unit();
    let u3 = rng.next_unit();
    let u4 = rng.next_unit_pos();
    let nl1 = neg_ln_unit(u1);
    proof {
        lemma_fmul_nonneg(p.disk_scale_radius as int, nl1 as int);
        lemma_fmul_bound(p.disk_scale_radius as int, nl1 as int, 1_000_000_000, NEG_LN_MAX as int);
    }
    let r = fmul(p.disk_scale_radius, nl1);
    let nl4 = neg_ln_unit(u4);
    let sq = sqrt_fixed(nl4);
    proof {
        assert(sq <= 3_800_000) by (nonlinear_arith)
            requires
                0 <= sq,
                sq * sq <= 14_000_000_000_000,
        ;
    }
    let w = 2 * u3 - ONE;
    proof {
        lemma_fmul_bound(w as int, sq as int, ONE as int, 3_800_000);
    }
    let f1 = fmul(w, sq);
    proof {
        lemma_fmul_bound(p.disk_scale_height as int, f1 as int, 1_000_000_000, 3_800_000);
    }
    let z = fmul(p.disk_scale_height, f1);
    let c = cos_turn(th);
    let sn = sin_turn(th);
    proof {
        lemma_fmul_bound(r as int, c as int, 14_000_000_000, SIN_BOUND as int);
        lemma_fmul_bound(r as int, sn as int, 14_000_000_000, SIN_BOUND as int);
    }
    Vec3 { x: fmul(r, c), y: fmul(r, sn), z }
}

/// Rejection sampling of an elliptical disk offset: candidates are drawn
/// until one lies inside the magnitude band, up to `tries` attempts.
pub open spec fn ell_disk_m(p: SimParams, s: u64, tries: nat) -> (Option<V3m>, u64)
    decreases tries,
{
    if tries == 0 {
        (None::<V3m>, s)
    } else {
        let (v, s1) = ell_disk_try_m(p, s);
        if R2_MIN <= mag2_m(v) <= R2_MAX {
            (Some(v), s1)
        } else {
            ell_disk_m(p, s1, (tries - 1) as nat)
        }
    }
}

/// Sample an elliptical disk offset, or report exhaustion.
pub fn sample_ell_disk(p: &SimParams, rng: &mut RandomSource) -> (o: Option<Vec3>)
    requires
        p.wf(),
    ensures
        ({
            let (om, s2) = ell_disk_m(*p, old(rng).state, MAX_TRIES as nat);
            &&& opt_v3m(o) == om
            &&& final(rng).state == s2
        }),
        o is Some ==> R2_MIN <= mag2_m(o->Some_0@) <= R2_MAX
            && v3_bounded(o->Some_0@, SAMPLE_BOUND as int)
            && xy_bounded(o->Some_0@, PLANE_BOUND as int),
{
    let ghost s0 = rng.state;
    let mut t: u32 = 0;
    while t < MAX_TRIES
        invariant
            p.wf(),
            t <= MAX_TRIES,
            s0 == old(rng).state,
            ell_disk_m(*p, s0, MAX_TRIES as nat) == ell_disk_m(*p, rng.state, (MAX_TRIES - t) as nat),
        decreases MAX_TRIES - t,
    {
        let ghost s_it = rng.state;
        let v = ell_disk_try(p, rng);
        let m2 = v.mag2();
        proof {
            assert(ell_disk_m(*p, s_it, (MAX_TRIES - t) as nat) == (if R2_MIN <= mag2_m(v@) <= R2_MAX {
                (Some(v@), rng.state)
            } else {
                ell_disk_m(*p, rng.state, (MAX_TRIES - t - 1) as nat)
            }));
        }
        if R2_MIN <= m2 && m2 <= R2_MAX {
            return Some(v);
        }
        t = t + 1;
    }
    None
}

/// One candidate offset for a spiral bulge particle: a zero-mean Gaussian
/// cloud, compressed out of plane.
pub open spec fn sp_bulge_try_m(p: SimParams, s: u64) -> (V3m, u64) {
    let (gx, s1) = gauss_m(p.spiral.bulge_std as int, s);
    let (gy, s2) = gauss_m(p.spiral.bulge_std as int, s1);
    let (gz, s3) = gauss_m(p.spiral.bulge_std as int, s2);
    (V3m { x: gx, y: gy, z: fmul_m(gz, p.spiral.width as int) }, s3)
}

/// Draw one spiral bulge candidate.
pub fn sp_bulge_try(p: &SimParams, rng: &mut RandomSource) -> (v: Vec3)
    requires
        p.wf(),
    ensures
        (v@, final(rng).state) == sp_bulge_try_m(*p, old(rng).state),
        v3_bounded(v@, SAMPLE_BOUND as int),
        xy_bounded(v@, PLANE_BOUND as int),
{
    let gx = gauss(p.spiral.bulge_std, rng);
    let gy = gauss(p.spiral.bulge_std, rng);
    let gz = gauss(p.spiral.bulge_std, rng);
    proof {
        lemma_fmul_bound(gz as int, p.spiral.width as int, GAUSS_BOUND as int, 1_000_000_000);
    }
    Vec3 { x: gx, y: gy, z: fmul(gz, p.spiral.width) }
}

/// Rejection sampling of a spiral bulge offset: candidates are drawn until
/// one lies inside the bulge's magnitude band, up to `tries` attempts.
pub open spec fn sp_bulge_m(p: SimParams, s: u64, tries: nat) -> (Option<V3m>, u64)
    decreases tries,
{
    if tries == 0 {
        (None::<V3m>, s)
    } else {
        let (v, s1) = sp_bulge_try_m(p, s);
        if R2_MIN <= mag2_m(v) <= SPIRAL_R2_MAX {
            (Some(v), s1)
        } else {
            sp_bulge_m(p, s1, (tries - 1) as nat)
        }
    }
}

/// Sample a spiral bulge offset, or report exhaustion.
pub fn sample_sp_bulge(p: &SimParams, rng: &mut RandomSource) -> (o: Option<Vec3>)
    requires
        p.wf(),
    ensures
        ({
            let (om, s2) = sp_bulge_m(*p, old(rng).state, MAX_TRIES as nat);
            &&& opt_v3m(o) == om
            &&& final(rng).state == s2
        }),
        o is Some ==> R2_MIN <= mag2_m(o->Some_0@) <= SPIRAL_R2_MAX
            && v3_bounded(o->Some_0@, SAMPLE_BOUND as int)
            && xy_bounded(o->Some_0@, PLANE_BOUND as int),
{
    let ghost s0 = rng.state;
    let mut t: u32 = 0;
    while t < MAX_TRIES
        invariant
            p.wf(),
            t <= MAX_TRIES,
            s0 == old(rng).state,
            sp_bulge_m(*p, s0, MAX_TRIES as nat) == sp_bulge_m(*p, rng.state, (MAX_TRIES - t) as nat),
        decreases MAX_TRIES - t,
    {
        let ghost s_it = rng.state;
        let v = sp_bulge_try(p, rng);
        let m2 = v.mag2();
        proof {
            assert(sp_bulge_m(*p, s_it, (MAX_TRIES - t) as nat) == (if R2_MIN <= mag2_m(v@) <= SPIRAL_R2_MAX {
                (Some(v@), rng.state)
            } else {
                sp_bulge_m(*p, rng.state, (MAX_TRIES - t - 1) as nat)
            }));
        }
        if R2_MIN <= m2 && m2 <= SPIRAL_R2_MAX {
            return Some(v);
        }
        t = t + 1;
    }
    None
}

/// Base spiral angle of arm particle `i`, in turn units: the particle index
/// spread evenly over the arm's angular extent.
pub open spec fn arm_theta_m(p: SimParams, i: int) -> int {
    (i * (p.spiral.spiral_length as int) * 5) / (8 * (p.num_particles as int))
}

/// The angle arm particle `i` actually sits on: even indices lie on the
/// base angle, odd indices on the base angle plus half a turn — the
/// two-armed alternation of the spiral.
pub open spec fn arm_angle_m(p: SimParams, i: int) -> int {
    arm_theta_m(p, i) + if i % 2 == 0 {
        0
    } else {
        HALF_TURN as int
    }
}

/// Even-index arm particles sit exactly on the base angle; odd-index arm
/// particles sit exactly half a turn away.
pub proof fn lemma_arm_parity(p: SimParams, i: int)
    ensures
        i % 2 == 0 ==> arm_angle_m(p, i) == arm_theta_m(p, i),
        i % 2 != 0 ==> arm_angle_m(p, i) == arm_theta_m(p, i) + HALF_TURN,
{
}

/// The offset of arm particle `i`: a radius that grows with the square
/// root of the base angle (clamped below by the bulge deviation), a
/// Gaussian radial scatter, and a compressed Gaussian vertical offset.
pub open spec fn arm_offset_m(p: SimParams, i: int, s: u64) -> (V3m, u64) {
    let theta_rad = fmul_m(arm_theta_m(p, i), TWO_PI as int);
    let r0 = fmul_m(p.spiral.spiral_size as int, sqrt_m(theta_rad));
    let r1 = if r0 < p.spiral.bulge_std {
        p.spiral.bulge_std as int
    } else {
        r0
    };
    let at = arm_angle_m(p, i);
    let (dev, s1) = gauss_m(p.spiral.spiral_width as int, s);
    let (zg, s2) = gauss_m(p.spiral.spiral_width as int, s1);
    let rr = r1 + dev;
    (V3m {
        x: fmul_m(rr, cos_m(at)),
        y: fmul_m(rr, sin_m(at)),
        z: fmul_m(zg, p.spiral.width as int),
    }, s2)
}

/// Draw the offset of arm particle `i`.
#[verifier::rlimit(60)]
pub fn arm_offset(p: &SimParams, i: u32, rng: &mut RandomSource) -> (v: Vec3)
    requires
        p.wf(),
        i < p.num_particles,
    ensures
        (v@, final(rng).state) == arm_offset_m(*p, i as int, old(rng).state),
        v3_bounded(v@, SAMPLE_BOUND as int),
        xy_bounded(v@, PLANE_BOUND as int),
{
    proof {
        assert((i as int) * (p.spiral.spiral_length as int) <= 100_000_000_000_000) by (nonlinear_arith)
            requires
                0 <= i < p.num_particles <= 1_000_000,
                1 <= p.spiral.spiral_length <= 100_000_000,
        ;
    }
    let num: u128 = (i as u128) * (p.spiral.spiral_length as u128) * 5;
    let den: u128 = 8 * (p.num_particles as u128);
    let theta_t: i128 = (num / den) as i128;
    proof {
        assert(num == (i as int) * (p.spiral.spiral_length as int) * 5);
        assert(theta_t == arm_theta_m(*p, i as int));
        assert(num <= (p.num_particles as int) * ((p.spiral.spiral_length as int) * 5)) by (nonlinear_arith)
            requires
                0 <= i < p.num_particles,
                1 <= p.spiral.spiral_length,
                num == (i as int) * (p.spiral.spiral_length as int) * 5,
        ;
        lemma_div_is_ordered(num as int, (p.num_particles as int) * ((p.spiral.spiral_length as int) * 5), den as int);
        lemma_div_multiples_vanish_quotient(p.num_particles as int, (p.spiral.spiral_length as int) * 5, 8);
        assert(theta_t <= ((p.spiral.spiral_length as int) * 5) / 8);
        assert(theta_t <= 62_500_000);
        lemma_fmul_nonneg(theta_t as int, TWO_PI as int);
        lemma_fmul_bound(theta_t as int, TWO_PI as int, 62_500_000, TWO_PI as int);
    }
    let theta_rad = fmul(theta_t, TWO_PI);
    let sq = sqrt_fixed(theta_rad);
    proof {
        assert(sq <= 20_000_000) by (nonlinear_arith)
            requires
                0 <= sq,
                sq * sq <= 392_699_063_000_000,
        ;
        lemma_fmul_nonneg(p.spiral.spiral_size as int, sq as int);
        lemma_fmul_bound(p.spiral.spiral_size as int, sq as int, 1_000_000_000, 20_000_000);
    }
    let r0 = fmul(p.spiral.spiral_size, sq);
    let r1 = if r0 < p.spiral.bulge_std {
        p.spiral.bulge_std
    } else {
        r0
    };
    let at = if i % 2 == 0 {
        theta_t
    } else {
        theta_t + HALF_TURN
    };
    let dev = gauss(p.spiral.spiral_width, rng);
    let zg = gauss(p.spiral.spiral_width, rng);
    let rr = r1 + dev;
    let c = cos_turn(at);
    let sn = sin_turn(at);
    proof {
        lemma_fmul_bound(rr as int, c as int, 31_000_000_000_000, SIN_BOUND as int);
        lemma_fmul_bound(rr as int, sn as int, 31_000_000_000_000, SIN_BOUND as int);
        lemma_fmul_bound(zg as int, p.spiral.width as int, GAUSS_BOUND as int, 1_000_000_000);
    }
    Vec3 { x: fmul(rr, c), y: fmul(rr, sn), z: fmul(zg, p.spiral.width) }
}

} // verus!
