//! Galaxy layout: where each galaxy's center sits and how fast it drifts.
//!
//! A single galaxy sits at the origin; several galaxies are spread over a
//! ring, each pushed inward so that multi-galaxy scenarios converge. For two
//! galaxies the centers are exactly antipodal and the bulk velocities
//! exactly antiparallel — proven below from the half-turn symmetry of the
//! trigonometric kernel.

use vstd::prelude::*;
use crate::fixed::{fmul, fmul_m, lemma_fmul_bound, lemma_fmul_neg_left, ONE};
use crate::series::{sin_m, cos_m, sin_turn, cos_turn, SIN_BOUND, lemma_sin_antipodal, lemma_cos_antipodal, HALF_TURN};
use crate::particle::{Vec3, V3m, v3_zero, vneg_m};
use crate::params::SimParams;

verus! {

/// Ring angle of galaxy `g`, in turn units.
pub open spec fn angle_m(p: SimParams, g: int) -> int {
    (g * (ONE as int)) / (p.num_galaxies as int)
}

/// Center of galaxy `g`.
pub open spec fn center_m(p: SimParams, g: int) -> V3m {
    if p.num_galaxies == 1 {
        v3_zero()
    } else {
        (V3m {
            x: fmul_m(sin_m(angle_m(p, g)), p.distance_between_galaxies as int),
            y: fmul_m(cos_m(angle_m(p, g)), p.distance_between_galaxies as int),
            z: 0,
        })
    }
}

/// Bulk velocity of galaxy `g`: inward along the ring radius, or along the
/// first axis for a single galaxy.
pub open spec fn bulk_m(p: SimParams, g: int) -> V3m {
    if p.num_galaxies == 1 {
        (V3m { x: p.galaxy_velocity as int, y: 0, z: 0 })
    } else {
        (V3m {
            x: -fmul_m(sin_m(angle_m(p, g)), p.galaxy_velocity as int),
            y: -fmul_m(cos_m(angle_m(p, g)), p.galaxy_velocity as int),
            z: 0,
        })
    }
}

/// Magnitude bound on every layout coordinate.
pub const LAYOUT_BOUND: i128 = 2_000_000_000_000;

/// Center of galaxy `g`, exactly as the layout model places it.
pub fn galaxy_center(p: &SimParams, g: u32) -> (c: Vec3)
    requires
        p.wf(),
        g < p.num_galaxies,
    ensures
        c@ == center_m(*p, g as int),
        -LAYOUT_BOUND <= c.x <= LAYOUT_BOUND,
        -LAYOUT_BOUND <= c.y <= LAYOUT_BOUND,
        c.z == 0,
{
    if p.num_galaxies == 1 {
        Vec3 { x: 0, y: 0, z: 0 }
    } else {
        let ang: i128 = (((g as u128) * 1_000_000) / (p.num_galaxies as u128)) as i128;
        let s = sin_turn(ang);
        let c = cos_turn(ang);
        proof {
            lemma_fmul_bound(s as int, p.distance_between_galaxies as int, SIN_BOUND as int, 1_000_000_000);
            lemma_fmul_bound(c as int, p.distance_between_galaxies as int, SIN_BOUND as int, 1_000_000_000);
        }
        Vec3 {
            x: fmul(s, p.distance_between_galaxies),
            y: fmul(c, p.distance_between_galaxies),
            z: 0,
        }
    }
}

/// Bulk velocity of galaxy `g`, exactly as the layout model sets it.
pub fn bulk_velocity(p: &SimParams, g: u32) -> (v: Vec3)
    requires
        p.wf(),
        g < p.num_galaxies,
    ensures
        v@ == bulk_m(*p, g as int),
        -LAYOUT_BOUND <= v.x <= LAYOUT_BOUND,
        -LAYOUT_BOUND <= v.y <= LAYOUT_BOUND,
        v.z == 0,
{
    if p.num_galaxies == 1 {
        Vec3 { x: p.galaxy_velocity, y: 0, z: 0 }
    } else {
        let ang: i128 = (((g as u128) * 1_000_000) / (p.num_galaxies as u128)) as i128;
        let s = sin_turn(ang);
        let c = cos_turn(ang);
        proof {
            lemma_fmul_bound(s as int, p.galaxy_velocity as int, SIN_BOUND as int, 1_000_000_000);
            lemma_fmul_bound(c as int, p.galaxy_velocity as int, SIN_BOUND as int, 1_000_000_000);
        }
        Vec3 {
            x: -fmul(s, p.galaxy_velocity),
            y: -fmul(c, p.galaxy_velocity),
            z: 0,
        }
    }
}

/// Two galaxies sit antipodally through the origin and drift antiparallel.
pub proof fn lemma_two_galaxy_symmetry(p: SimParams)
    requires
        p.wf(),
        p.num_galaxies == 2,
    ensures
        center_m(p, 1) == vneg_m(center_m(p, 0)),
        bulk_m(p, 1) == vneg_m(bulk_m(p, 0)),
{
    assert(angle_m(p, 0) == 0);
    assert(angle_m(p, 1) == HALF_TURN);
    lemma_sin_antipodal(0);
    lemma_cos_antipodal(0);
    assert(sin_m(HALF_TURN as int) == -sin_m(0));
    assert(cos_m(HALF_TURN as int) == -cos_m(0));
    lemma_fmul_neg_left(sin_m(0), p.distance_between_galaxies as int);
    lemma_fmul_neg_left(cos_m(0), p.distance_between_galaxies as int);
    lemma_fmul_neg_left(sin_m(0), p.galaxy_velocity as int);
    lemma_fmul_neg_left(cos_m(0), p.galaxy_velocity as int);
}

} // verus!
