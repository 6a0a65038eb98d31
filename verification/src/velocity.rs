//! The velocity field: orbital speed from a rotation curve, a tangential
//! direction in the galactic plane, a random dispersion, and the galaxy's
//! bulk drift.
//!
//! The elliptical speed follows a softened point-mass rotation curve summed
//! in quadrature with a dark-matter halo term; the spiral speed is the
//! softening-free square-root curve with gravity as a single rate constant.
//! Directions are purely tangential: the relative offset rotated a quarter
//! turn about the vertical axis and normalized in the plane; a particle
//! exactly on the axis (where the plane magnitude rounds to zero) gets the
//! zero direction, the fixed-point analogue of the measure-zero singularity.

use vstd::prelude::*;
use crate::fixed::{
    fmul, fmul_m, fdiv, fdiv_m, sqrt_fixed, sqrt_m, ONE, lemma_fmul_bound, lemma_fmul_nonneg,
    lemma_fmul_self_nonneg, lemma_fdiv_pos_bound,
};
use crate::rng::{RandomSource, next_state_m, unit_m};
use crate::particle::{Vec3, V3m, v3_zero, v3_bounded, mag2_m};
use crate::sample::{xy_bounded, PLANE_BOUND, SAMPLE_BOUND, R2_MAX};
use crate::params::SimParams;
use vstd::arithmetic::div_mod::{
    lemma_div_is_ordered, lemma_div_multiples_vanish, lemma_fundamental_div_mod,
};

verus! {

/// Magnitude bound on a normalized direction component.
pub const DIR_BOUND: i128 = 2_000_000_000;

/// Magnitude bound on an orbital speed.
pub const SPEED_BOUND: i128 = 20_000_000_000_000;

/// Magnitude bound on a velocity component.
pub const VEL_BOUND: i128 = 50_000_000_000_000_000;

/// In-plane squared magnitude of a model vector.
pub open spec fn mag2xy_m(v: V3m) -> int {
    fmul_m(v.x, v.x) + fmul_m(v.y, v.y)
}

/// Tangential unit direction: the offset rotated a quarter turn about the
/// vertical axis, normalized by the in-plane magnitude; zero on the axis.
pub open spec fn tangent_m(v: V3m) -> V3m {
    let mxy = sqrt_m(mag2xy_m(v));
    if mxy == 0 {
        v3_zero()
    } else {
        (V3m { x: fdiv_m(-v.y, mxy), y: fdiv_m(v.x, mxy), z: 0 })
    }
}

/// A coordinate no larger than the plane magnitude (plus the fixed-point
/// rounding slack) divides into a bounded direction component.
proof fn lemma_dir_component_bound(a: int, b: int)
    requires
        1 <= b,
        -(b + 1001) <= a <= b + 1001,
    ensures
        -DIR_BOUND <= fdiv_m(a, b) <= DIR_BOUND,
{
    assert((b + 1001) * (ONE as int) <= (DIR_BOUND as int) * b) by (nonlinear_arith)
        requires
            1 <= b;
    if a >= 0 {
        assert(a * ONE <= (b + 1001) * (ONE as int)) by (nonlinear_arith)
            requires
                a <= b + 1001,
                0 <= a;
        lemma_div_is_ordered(a * ONE, (DIR_BOUND as int) * b, b);
        lemma_div_multiples_vanish(DIR_BOUND as int, b);
        assert((b * (DIR_BOUND as int)) / b == DIR_BOUND as int);
        assert((DIR_BOUND as int) * b == b * (DIR_BOUND as int)) by (nonlinear_arith);
        assert((a * ONE) / b >= 0) by (nonlinear_arith)
            requires
                0 <= a * ONE,
                1 <= b;
    } else {
        assert((-a) * ONE <= (b + 1001) * (ONE as int)) by (nonlinear_arith)
            requires
                -a <= b + 1001,
                0 <= -a;
        lemma_div_is_ordered((-a) * ONE, (DIR_BOUND as int) * b, b);
        lemma_div_multiples_vanish(DIR_BOUND as int, b);
        assert((b * (DIR_BOUND as int)) / b == DIR_BOUND as int);
        assert((DIR_BOUND as int) * b == b * (DIR_BOUND as int)) by (nonlinear_arith);
        assert(((-a) * ONE) / b >= 0) by (nonlinear_arith)
            requires
                0 <= (-a) * ONE,
                1 <= b;
    }
}

/// Compute the tangential unit direction of an offset.
#[verifier::rlimit(60)]
pub fn tangent(v: &Vec3) -> (d: Vec3)
    requires
        xy_bounded(v@, PLANE_BOUND as int),
    ensures
        d@ == tangent_m(v@),
        v3_bounded(d@, DIR_BOUND as int),
{
    proof {
        lemma_fmul_self_nonneg(v.x as int);
        lemma_fmul_self_nonneg(v.y as int);
        lemma_fmul_bound(v.x as int, v.x as int, PLANE_BOUND as int, PLANE_BOUND as int);
        lemma_fmul_bound(v.y as int, v.y as int, PLANE_BOUND as int, PLANE_BOUND as int);
    }
    let m2 = fmul(v.x, v.x) + fmul(v.y, v.y);
    let mxy = sqrt_fixed(m2);
    if mxy == 0 {
        Vec3 { x: 0, y: 0, z: 0 }
    } else {
        proof {
            let x = v.x as int;
            let y = v.y as int;
            let m = mxy as int;
            assert(x * x >= 0) by (nonlinear_arith);
            assert(y * y >= 0) by (nonlinear_arith);
            lemma_fundamental_div_mod(x * x, ONE as int);
            lemma_fundamental_div_mod(y * y, ONE as int);
            assert(x * x < (fmul_m(x, x) + 1) * (ONE as int));
            assert(y * y < (fmul_m(y, y) + 1) * (ONE as int));
            assert(x * x < (m2 + 1) * (ONE as int)) by (nonlinear_arith)
                requires
                    x * x < (fmul_m(x, x) + 1) * (ONE as int),
                    fmul_m(x, x) <= m2,
            ;
            assert(y * y < (m2 + 1) * (ONE as int)) by (nonlinear_arith)
                requires
                    y * y < (fmul_m(y, y) + 1) * (ONE as int),
                    fmul_m(y, y) <= m2,
            ;
            assert(x * x < (m + 1001) * (m + 1001) && y * y < (m + 1001) * (m + 1001))
                by (nonlinear_arith)
                requires
                    x * x < (m2 + 1) * (ONE as int),
                    y * y < (m2 + 1) * (ONE as int),
                    m2 * (ONE as int) < (m + 1) * (m + 1),
                    0 <= m,
            ;
            assert(-(m + 1001) <= x <= m + 1001 && -(m + 1001) <= y <= m + 1001)
                by (nonlinear_arith)
                requires
                    x * x < (m + 1001) * (m + 1001),
                    y * y < (m + 1001) * (m + 1001),
                    0 <= m,
            ;
            lemma_dir_component_bound(-y, m);
            lemma_dir_component_bound(x, m);
        }
        Vec3 { x: fdiv(-v.y, mxy), y: fdiv(v.x, mxy), z: 0 }
    }
}

/// Elliptical orbital speed: the softened point-mass rotation curve and the
/// halo's flat-curve contribution, summed in quadrature. The two quotient
/// denominators are floored at one micro-unit, the fixed-point analogue of
/// their structural positivity.
pub open spec fn ell_speed_m(p: SimParams, rel: V3m) -> int {
    let d2 = mag2_m(rel);
    let ds = d2 + p.softening;
    let den0 = fmul_m(ds, sqrt_m(ds));
    let den = if den0 < 1 {
        1
    } else {
        den0
    };
    let gm = fmul_m(p.gravity as int, p.central_mass as int);
    let vc2 = fdiv_m(fmul_m(gm, d2), den);
    let hv2 = fmul_m(p.halo_velocity as int, p.halo_velocity as int);
    let hr2 = fmul_m(p.halo_radius as int, p.halo_radius as int);
    let hden0 = d2 + hr2;
    let hden = if hden0 < 1 {
        1
    } else {
        hden0
    };
    let vh2 = fdiv_m(fmul_m(hv2, d2), hden);
    sqrt_m(vc2 + vh2)
}

/// Compute the elliptical orbital speed of an accepted offset.
#[verifier::rlimit(60)]
pub fn ell_speed(p: &SimParams, rel: &Vec3) -> (sp: i128)
    requires
        p.wf(),
        v3_bounded(rel@, SAMPLE_BOUND as int),
        mag2_m(rel@) <= R2_MAX,
    ensures
        sp == ell_speed_m(*p, rel@),
        0 <= sp <= SPEED_BOUND,
{
    let d2 = rel.mag2();
    let ds = d2 + p.softening;
    let sq_ds = sqrt_fixed(ds);
    proof {
        assert(sq_ds <= 34_000_000) by (nonlinear_arith)
            requires
                0 <= sq_ds,
                sq_ds * sq_ds <= 1_000_360_000_000_000,
        ;
        lemma_fmul_nonneg(ds as int, sq_ds as int);
        lemma_fmul_bound(ds as int, sq_ds as int, 1_000_360_000, 34_000_000);
    }
    let den0 = fmul(ds, sq_ds);
    let den = if den0 < 1 {
        1
    } else {
        den0
    };
    proof {
        lemma_fmul_nonneg(p.gravity as int, p.central_mass as int);
        lemma_fmul_bound(p.gravity as int, p.central_mass as int, 100_000_000, 10_000_000_000_000);
    }
    let gm = fmul(p.gravity, p.central_mass);
    proof {
        lemma_fmul_nonneg(gm as int, d2 as int);
        lemma_fmul_bound(gm as int, d2 as int, 1_000_000_000_000_000, R2_MAX as int);
    }
    let num = fmul(gm, d2);
    proof {
        lemma_fdiv_pos_bound(num as int, den as int);
    }
    let vc2 = fdiv(num, den);
    proof {
        lemma_fmul_self_nonneg(p.halo_velocity as int);
        lemma_fmul_bound(p.halo_velocity as int, p.halo_velocity as int, 100_000_000, 100_000_000);
        lemma_fmul_self_nonneg(p.halo_radius as int);
        lemma_fmul_bound(p.halo_radius as int, p.halo_radius as int, 1_000_000_000, 1_000_000_000);
    }
    let hv2 = fmul(p.halo_velocity, p.halo_velocity);
    let hr2 = fmul(p.halo_radius, p.halo_radius);
    let hden0 = d2 + hr2;
    let hden = if hden0 < 1 {
        1
    } else {
        hden0
    };
    proof {
        lemma_fmul_nonneg(hv2 as int, d2 as int);
        lemma_fmul_bound(hv2 as int, d2 as int, 10_000_000_000, R2_MAX as int);
    }
    let hnum = fmul(hv2, d2);
    proof {
        lemma_fdiv_pos_bound(hnum as int, hden as int);
    }
    let vh2 = fdiv(hnum, hden);
    let sp = sqrt_fixed(vc2 + vh2);
    proof {
        assert(sp <= SPEED_BOUND) by (nonlinear_arith)
            requires
                0 <= sp,
                sp * sp <= 363_600_000_000_000_000_000_000_000,
        ;
    }
    sp
}

/// Spiral orbital speed: the square-root curve `sqrt(gravity / distance)`,
/// zero at the (rejected or measure-zero) origin.
pub open spec fn sp_speed_m(p: SimParams, rel: V3m) -> int {
    let d = sqrt_m(mag2_m(rel));
    if d == 0 {
        0
    } else {
        sqrt_m(fdiv_m(p.gravity as int, d))
    }
}

/// Compute the spiral orbital speed of an offset.
pub fn sp_speed(p: &SimParams, rel: &Vec3) -> (sp: i128)
    requires
        p.wf(),
        v3_bounded(rel@, SAMPLE_BOUND as int),
    ensures
        sp == sp_speed_m(*p, rel@),
        0 <= sp <= SPEED_BOUND,
{
    proof {
        lemma_fmul_self_nonneg(rel.x as int);
        lemma_fmul_self_nonneg(rel.y as int);
        lemma_fmul_self_nonneg(rel.z as int);
        lemma_fmul_bound(rel.x as int, rel.x as int, SAMPLE_BOUND as int, SAMPLE_BOUND as int);
        lemma_fmul_bound(rel.y as int, rel.y as int, SAMPLE_BOUND as int, SAMPLE_BOUND as int);
        lemma_fmul_bound(rel.z as int, rel.z as int, SAMPLE_BOUND as int, SAMPLE_BOUND as int);
    }
    let m2 = rel.mag2();
    let d = sqrt_fixed(m2);
    if d == 0 {
        0
    } else {
        proof {
            lemma_fdiv_pos_bound(p.gravity as int, d as int);
        }
        let q = fdiv(p.gravity, d);
        let sp = sqrt_fixed(q);
        proof {
            assert(sp <= SPEED_BOUND) by (nonlinear_arith)
                requires
                    0 <= sp,
                    sp * sp <= 100_000_000_000_000_000_000,
            ;
        }
        sp
    }
}

/// The random dispersion added to a particle's velocity: a wide uniform cube
/// for dynamically hot bulge particles, a flatter one for disk and arm
/// particles.
pub open spec fn disp_m(bulge: bool, s: u64) -> (V3m, u64) {
    let u1 = unit_m(s);
    let s1 = next_state_m(s);
    let u2 = unit_m(s1);
    let s2 = next_state_m(s1);
    let u3 = unit_m(s2);
    let s3 = next_state_m(s2);
    if bulge {
        (V3m {
            x: fmul_m(u1, 150_000) - 75_000,
            y: fmul_m(u2, 150_000) - 75_000,
            z: fmul_m(u3, 150_000) - 75_000,
        }, s3)
    } else {
        (V3m {
            x: fmul_m(u1, 50_000) - 25_000,
            y: fmul_m(u2, 50_000) - 25_000,
            z: fmul_m(u3, 10_000) - 5_000,
        }, s3)
    }
}

/// Draw the dispersion vector.
pub fn dispersion(bulge: bool, rng: &mut RandomSource) -> (dv: Vec3)
    ensures
        (dv@, final(rng).state) == disp_m(bulge, old(rng).state),
        v3_bounded(dv@, 75_000),
{
    let u1 = rng.next_unit();
    let u2 = rng.next_unit();
    let u3 = rng.next_unit();
    proof {
        lemma_fmul_nonneg(u1 as int, 150_000);
        lemma_fmul_nonneg(u2 as int, 150_000);
        lemma_fmul_nonneg(u3 as int, 150_000);
        lemma_fmul_nonneg(u1 as int, 50_000);
        lemma_fmul_nonneg(u2 as int, 50_000);
        lemma_fmul_nonneg(u3 as int, 10_000);
        lemma_fmul_bound(u1 as int, 150_000, ONE as int, 150_000);
        lemma_fmul_bound(u2 as int, 150_000, ONE as int, 150_000);
        lemma_fmul_bound(u3 as int, 150_000, ONE as int, 150_000);
        lemma_fmul_bound(u1 as int, 50_000, ONE as int, 50_000);
        lemma_fmul_bound(u2 as int, 50_000, ONE as int, 50_000);
        lemma_fmul_bound(u3 as int, 10_000, ONE as int, 10_000);
    }
    if bulge {
        Vec3 {
            x: fmul(u1, 150_000) - 75_000,
            y: fmul(u2, 150_000) - 75_000,
            z: fmul(u3, 150_000) - 75_000,
        }
    } else {
        Vec3 {
            x: fmul(u1, 50_000) - 25_000,
            y: fmul(u2, 50_000) - 25_000,
            z: fmul(u3, 10_000) - 5_000,
        }
    }
}

/// A particle's velocity: tangential orbit, dispersion, and bulk drift.
pub open spec fn velocity_sum_m(speed: int, dir: V3m, dv: V3m, bulk: V3m) -> V3m {
    V3m {
        x: fmul_m(dir.x, speed) + dv.x + bulk.x,
        y: fmul_m(dir.y, speed) + dv.y + bulk.y,
        z: fmul_m(dir.z, speed) + dv.z + bulk.z,
    }
}

/// Elliptical velocity of an accepted offset: speed, direction and
/// dispersion combined with the galaxy's bulk velocity.
pub open spec fn ell_velocity_m(p: SimParams, rel: V3m, bulge: bool, bulk: V3m, s: u64) -> (V3m, u64) {
    let (dv, s1) = disp_m(bulge, s);
    (velocity_sum_m(ell_speed_m(p, rel), tangent_m(rel), dv, bulk), s1)
}

/// Spiral velocity of an offset: the square-root-curve speed with the same
/// direction, dispersion and bulk combination.
pub open spec fn sp_velocity_m(p: SimParams, rel: V3m, bulge: bool, bulk: V3m, s: u64) -> (V3m, u64) {
    let (dv, s1) = disp_m(bulge, s);
    (velocity_sum_m(sp_speed_m(p, rel), tangent_m(rel), dv, bulk), s1)
}

/// Magnitude bound accepted for a bulk-velocity component here.
pub const BULK_BOUND: i128 = 2_000_000_000_000;

/// Compute the elliptical velocity of an accepted offset.
pub fn elliptical_velocity(p: &SimParams, rel: &Vec3, is_bulge: bool, bulk: &Vec3, rng: &mut RandomSource) -> (v: Vec3)
    requires
        p.wf(),
        v3_bounded(rel@, SAMPLE_BOUND as int),
        xy_bounded(rel@, PLANE_BOUND as int),
        mag2_m(rel@) <= R2_MAX,
        v3_bounded(bulk@, BULK_BOUND as int),
    ensures
        (v@, final(rng).state) == ell_velocity_m(*p, rel@, is_bulge, bulk@, old(rng).state),
        v3_bounded(v@, VEL_BOUND as int),
{
    let sp = ell_speed(p, rel);
    let dir = tangent(rel);
    let dv = dispersion(is_bulge, rng);
    proof {
        lemma_fmul_bound(dir.x as int, sp as int, DIR_BOUND as int, SPEED_BOUND as int);
        lemma_fmul_bound(dir.y as int, sp as int, DIR_BOUND as int, SPEED_BOUND as int);
        lemma_fmul_bound(dir.z as int, sp as int, DIR_BOUND as int, SPEED_BOUND as int);
    }
    Vec3 {
        x: fmul(dir.x, sp) + dv.x + bulk.x,
        y: fmul(dir.y, sp) + dv.y + bulk.y,
        z: fmul(dir.z, sp) + dv.z + bulk.z,
    }
}

/// Compute the spiral velocity of an offset.
pub fn spiral_velocity(p: &SimParams, rel: &Vec3, is_bulge: bool, bulk: &Vec3, rng: &mut RandomSource) -> (v: Vec3)
    requires
        p.wf(),
        v3_bounded(rel@, SAMPLE_BOUND as int),
        xy_bounded(rel@, PLANE_BOUND as int),
        v3_bounded(bulk@, BULK_BOUND as int),
    ensures
        (v@, final(rng).state) == sp_velocity_m(*p, rel@, is_bulge, bulk@, old(rng).state),
        v3_bounded(v@, VEL_BOUND as int),
{
    let sp = sp_speed(p, rel);
    let dir = tangent(rel);
    let dv = dispersion(is_bulge, rng);
    proof {
        lemma_fmul_bound(dir.x as int, sp as int, DIR_BOUND as int, SPEED_BOUND as int);
        lemma_fmul_bound(dir.y as int, sp as int, DIR_BOUND as int, SPEED_BOUND as int);
        lemma_fmul_bound(dir.z as int, sp as int, DIR_BOUND as int, SPEED_BOUND as int);
    }
    Vec3 {
        x: fmul(dir.x, sp) + dv.x + bulk.x,
        y: fmul(dir.y, sp) + dv.y + bulk.y,
        z: fmul(dir.z, sp) + dv.z + bulk.z,
    }
}

} // verus!
