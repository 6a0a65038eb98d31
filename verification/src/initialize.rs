//! The particle assembler: one generation run from parameters, morphology
//! and seed to the flat particle sequence.
//!
//! Particles come out in galaxy-major order; the first particle of each
//! galaxy's block is the heavy central seed at the galaxy's exact center
//! with its bulk velocity. The whole run is pinned to the functional model
//! `rest_m`, a pure function of morphology, parameters and seed — calling
//! the generator twice with the same arguments provably yields the same
//! sequence.

use vstd::prelude::*;
use crate::fixed::ONE;
use crate::rng::{RandomSource, next_state_m, unit_m};
use crate::particle::{Vec3, Particle, Pm, v3_zero, vadd_m, vsub_m, mag2_m, pmodels};
use crate::params::{SimParams, GalaxyType, GenError};
use crate::layout::{center_m, bulk_m, galaxy_center, bulk_velocity};
use crate::sample::{
    MAX_TRIES, R2_MAX, R2_MIN, SPIRAL_BULGE_FRACTION, ell_bulge_m, ell_disk_m, sp_bulge_m, arm_offset_m,
    sample_ell_bulge, sample_ell_disk, sample_sp_bulge, arm_offset,
};
use crate::velocity::{ell_velocity_m, sp_velocity_m, elliptical_velocity, spiral_velocity};
use vstd::arithmetic::div_mod::{lemma_multiply_divide_lt, lemma_mod_bound};

verus! {

/// Model of one non-central elliptical particle: a bulge-or-disk
/// classification, a rejection-sampled offset, and the orbital velocity.
#[verifier::opaque]
pub open spec fn ell_particle_m(p: SimParams, g: int, s: u64) -> (Option<Pm>, u64) {
    let ub = unit_m(s);
    let s1 = next_state_m(s);
    let bulge = ub < p.bulge_fraction;
    let (ov, s2) = if bulge {
        ell_bulge_m(p, s1, MAX_TRIES as nat)
    } else {
        ell_disk_m(p, s1, MAX_TRIES as nat)
    };
    match ov {
        None => (None::<Pm>, s2),
        Some(rel) => {
            let (vel, s3) = ell_velocity_m(p, rel, bulge, bulk_m(p, g), s2);
            (Some(Pm {
                pos: vadd_m(rel, center_m(p, g)),
                vel,
                acc: v3_zero(),
                mass: ONE as int,
            }), s3)
        },
    }
}

/// Generate one non-central elliptical particle of galaxy `g`.
pub fn elliptical_particle(p: &SimParams, g: u32, rng: &mut RandomSource) -> (o: Option<Particle>)
    requires
        p.wf(),
        g < p.num_galaxies,
    ensures
        ({
            let (om, s2) = ell_particle_m(*p, g as int, old(rng).state);
            &&& final(rng).state == s2
            &&& (o is Some <==> om is Some)
            &&& (o is Some ==> om == Some(o->Some_0@))
        }),
        o is Some ==> o->Some_0@.mass == ONE && o->Some_0@.acc == v3_zero()
            && mag2_m(vsub_m(o->Some_0@.pos, center_m(*p, g as int))) <= R2_MAX,
        p.bulge_fraction == 0 && o is Some
            ==> mag2_m(vsub_m(o->Some_0@.pos, center_m(*p, g as int))) >= R2_MIN,
{
    proof {
        reveal(ell_particle_m);
    }
    let ub = rng.next_unit();
    let bulge = ub < p.bulge_fraction;
    let ov = if bulge {
        sample_ell_bulge(p, rng)
    } else {
        sample_ell_disk(p, rng)
    };
    match ov {
        None => None,
        Some(rel) => {
            let bulk = bulk_velocity(p, g);
            let vel = elliptical_velocity(p, &rel, bulge, &bulk, rng);
            let center = galaxy_center(p, g);
            let pos = rel.plus(&center);
            Some(Particle { pos, vel, acc: Vec3 { x: 0, y: 0, z: 0 }, mass: ONE })
        },
    }
}

/// Model of one non-central spiral particle: one fifth belong to the
/// Gaussian bulge cloud, the rest sit on the two alternating arms.
#[verifier::opaque]
pub open spec fn sp_particle_m(p: SimParams, g: int, j: int, s: u64) -> (Option<Pm>, u64) {
    let ub = unit_m(s);
    let s1 = next_state_m(s);
    if ub < SPIRAL_BULGE_FRACTION {
        match sp_bulge_m(p, s1, MAX_TRIES as nat) {
            (None, s2) => (None::<Pm>, s2),
            (Some(rel), s2) => {
                let (vel, s3) = sp_velocity_m(p, rel, true, bulk_m(p, g), s2);
                (Some(Pm {
                    pos: vadd_m(rel, center_m(p, g)),
                    vel,
                    acc: v3_zero(),
                    mass: ONE as int,
                }), s3)
            },
        }
    } else {
        let (rel, s2) = arm_offset_m(p, j - 1, s1);
        let (vel, s3) = sp_velocity_m(p, rel, false, bulk_m(p, g), s2);
        (Some(Pm {
            pos: vadd_m(rel, center_m(p, g)),
            vel,
            acc: v3_zero(),
            mass: ONE as int,
        }), s3)
    }
}

/// Generate one non-central spiral particle: index `j` within galaxy `g`.
pub fn spiral_particle(p: &SimParams, g: u32, j: u32, rng: &mut RandomSource) -> (o: Option<Particle>)
    requires
        p.wf(),
        g < p.num_galaxies,
        1 <= j < p.num_particles,
    ensures
        ({
            let (om, s2) = sp_particle_m(*p, g as int, j as int, old(rng).state);
            &&& final(rng).state == s2
            &&& (o is Some <==> om is Some)
            &&& (o is Some ==> om == Some(o->Some_0@))
        }),
        o is Some ==> o->Some_0@.mass == ONE && o->Some_0@.acc == v3_zero(),
{
    proof {
        reveal(sp_particle_m);
    }
    let ub = rng.next_unit();
    if ub < SPIRAL_BULGE_FRACTION {
        match sample_sp_bulge(p, rng) {
            None => None,
            Some(rel) => {
                let bulk = bulk_velocity(p, g);
                let vel = spiral_velocity(p, &rel, true, &bulk, rng);
                let center = galaxy_center(p, g);
                let pos = rel.plus(&center);
                Some(Particle { pos, vel, acc: Vec3 { x: 0, y: 0, z: 0 }, mass: ONE })
            },
        }
    } else {
        let rel = arm_offset(p, j - 1, rng);
        let bulk = bulk_velocity(p, g);
        let vel = spiral_velocity(p, &rel, false, &bulk, rng);
        let center = galaxy_center(p, g);
        let pos = rel.plus(&center);
        Some(Particle { pos, vel, acc: Vec3 { x: 0, y: 0, z: 0 }, mass: ONE })
    }
}

/// Model of the particle at flat index `k`: the central seed at the start
/// of each galaxy block, a sampled particle elsewhere.
#[verifier::opaque]
pub open spec fn particle_m(t: GalaxyType, p: SimParams, k: int, s: u64) -> (Option<Pm>, u64) {
    let g = k / (p.num_particles as int);
    let j = k % (p.num_particles as int);
    if j == 0 {
        (Some(Pm {
            pos: center_m(p, g),
            vel: bulk_m(p, g),
            acc: v3_zero(),
            mass: p.central_mass as int,
        }), s)
    } else {
        match t {
            GalaxyType::Elliptical => ell_particle_m(p, g, s),
            GalaxyType::Spiral => sp_particle_m(p, g, j, s),
        }
    }
}

/// The model of an optional particle.
pub open spec fn opt_pm(o: Option<Particle>) -> Option<Pm> {
    match o {
        Some(part) => Some(part@),
        None => None,
    }
}

/// Generate the particle at flat index `k`.
pub fn gen_particle(t: GalaxyType, p: &SimParams, k: usize, rng: &mut RandomSource) -> (o: Option<Particle>)
    requires
        p.wf(),
        k < (p.num_particles as int) * (p.num_galaxies as int),
    ensures
        ({
            let (om, s2) = particle_m(t, *p, k as int, old(rng).state);
            &&& final(rng).state == s2
            &&& opt_pm(o) == om
        }),
        o is Some ==> o->Some_0@.acc == v3_zero(),
        k as int % (p.num_particles as int) == 0 ==> o is Some
            && o->Some_0@.pos == center_m(*p, k as int / (p.num_particles as int))
            && o->Some_0@.vel == bulk_m(*p, k as int / (p.num_particles as int))
            && o->Some_0@.mass == p.central_mass,
        k as int % (p.num_particles as int) != 0 && o is Some ==> o->Some_0@.mass == ONE,
        t is Elliptical && k as int % (p.num_particles as int) != 0 && o is Some
            ==> mag2_m(vsub_m(o->Some_0@.pos, center_m(*p, k as int / (p.num_particles as int)))) <= R2_MAX
                && (p.bulge_fraction == 0
                    ==> mag2_m(vsub_m(o->Some_0@.pos, center_m(*p, k as int / (p.num_particles as int)))) >= R2_MIN),
{
    let np: usize = p.num_particles as usize;
    proof {
        reveal(particle_m);
        lemma_multiply_divide_lt(k as int, np as int, p.num_galaxies as int);
        lemma_mod_bound(k as int, np as int);
    }
    let g: u32 = (k / np) as u32;
    let j: u32 = (k % np) as u32;
    if j == 0 {
        let pos = galaxy_center(p, g);
        let vel = bulk_velocity(p, g);
        Some(Particle { pos, vel, acc: Vec3 { x: 0, y: 0, z: 0 }, mass: p.central_mass })
    } else {
        match t {
            GalaxyType::Elliptical => elliptical_particle(p, g, rng),
            GalaxyType::Spiral => spiral_particle(p, g, j, rng),
        }
    }
}

/// Number of particles of a whole run.
pub open spec fn total_m(p: SimParams) -> int {
    (p.num_particles as int) * (p.num_galaxies as int)
}

/// Model of the particles from flat index `k` on: the rest of the run as a
/// pure function of the stream state, with exhaustion propagated.
pub open spec fn rest_m(t: GalaxyType, p: SimParams, k: int, s: u64) -> (Option<Seq<Pm>>, u64)
    decreases total_m(p) - k,
{
    if k < 0 || k >= total_m(p) {
        (Some(Seq::<Pm>::empty()), s)
    } else {
        let (op, s1) = particle_m(t, p, k, s);
        match op {
            None => (None::<Seq<Pm>>, s1),
            Some(pm) => {
                let (rest, s2) = rest_m(t, p, k + 1, s1);
                match rest {
                    None => (None::<Seq<Pm>>, s2),
                    Some(sq) => (Some(seq![pm] + sq), s2),
                }
            },
        }
    }
}

/// The count invariant over the model itself: whenever a run from index `k`
/// succeeds, it yields exactly one particle per remaining index, so a whole
/// run yields `num_particles * num_galaxies` particles.
pub proof fn lemma_rest_len(t: GalaxyType, p: SimParams, k: int, s: u64)
    requires
        0 <= k <= total_m(p),
    ensures
        rest_m(t, p, k, s).0 is Some ==> rest_m(t, p, k, s).0->Some_0.len() == total_m(p) - k,
    decreases total_m(p) - k,
{
    if k < total_m(p) {
        let (op, s1) = particle_m(t, p, k, s);
        match op {
            None => {},
            Some(pm) => {
                lemma_rest_len(t, p, k + 1, s1);
            },
        }
    }
}

/// Generate the initial particle field: `num_particles` particles for each
/// of `num_galaxies` galaxies, in galaxy-major order, from the given seed.
///
/// The sequence is the functional model `rest_m` of the run — a pure
/// function of morphology, parameters and seed, so identical calls yield
/// identical output. Exactly one particle per galaxy block is the central
/// seed; every other particle has unit mass, and for the elliptical
/// morphology it lies within the outer acceptance radius of its center.
/// The run fails (with no partial output) exactly when some rejection loop
/// exhausts its retry cap.
pub fn create_galaxies(galaxy_type: GalaxyType, sim_params: &SimParams, seed: u64) -> (r: Result<
    Vec<Particle>,
    GenError,
>)
    requires
        sim_params.wf(),
    ensures
        ({
            let (om, s_end) = rest_m(galaxy_type, *sim_params, 0, seed);
            match r {
                Ok(v) => {
                    &&& om is Some
                    &&& pmodels(v@) == om->Some_0
                    &&& v@.len() == total_m(*sim_params)
                    &&& forall|i: int| #![auto]
                        0 <= i < v@.len() ==> v@[i]@.acc == v3_zero()
                    &&& forall|i: int| #![auto]
                        0 <= i < v@.len() && i % (sim_params.num_particles as int) == 0
                            ==> v@[i]@.pos == center_m(*sim_params, i / (sim_params.num_particles as int))
                                && v@[i]@.vel == bulk_m(*sim_params, i / (sim_params.num_particles as int))
                                && v@[i]@.mass == sim_params.central_mass
                    &&& forall|i: int| #![auto]
                        0 <= i < v@.len() && i % (sim_params.num_particles as int) != 0
                            ==> v@[i]@.mass == ONE
                    &&& galaxy_type is Elliptical ==> forall|i: int| #![auto]
                        0 <= i < v@.len() && i % (sim_params.num_particles as int) != 0
                            ==> mag2_m(vsub_m(v@[i]@.pos, center_m(*sim_params, i / (sim_params.num_particles as int)))) <= R2_MAX
                                && (sim_params.bulge_fraction == 0
                                    ==> mag2_m(vsub_m(v@[i]@.pos, center_m(*sim_params, i / (sim_params.num_particles as int)))) >= R2_MIN)
                },
                Err(e) => {
                    &&& e == GenError::SamplingExhausted
                    &&& om is None
                },
            }
        }),
{
    let mut rng = RandomSource::new(seed);
    let np: usize = sim_params.num_particles as usize;
    let ng: usize = sim_params.num_galaxies as usize;
    proof {
        assert((np as int) * (ng as int) <= 1_000_000_000) by (nonlinear_arith)
            requires
                1 <= np <= 1_000_000,
                1 <= ng <= 1_000;
    }
    let total: usize = np * ng;
    let mut out: Vec<Particle> = Vec::new();
    let mut k: usize = 0;
    while k < total
        invariant
            sim_params.wf(),
            np == sim_params.num_particles,
            ng == sim_params.num_galaxies,
            total == np * ng,
            total == total_m(*sim_params),
            k <= total,
            out@.len() == k,
            ({
                let full = rest_m(galaxy_type, *sim_params, 0, seed);
                let cur = rest_m(galaxy_type, *sim_params, k as int, rng.state);
                &&& (full.0 is Some <==> cur.0 is Some)
                &&& full.1 == cur.1
                &&& (full.0 is Some ==> full.0->Some_0 == pmodels(out@) + cur.0->Some_0)
            }),
            forall|i: int| #![auto] 0 <= i < k ==> out@[i]@.acc == v3_zero(),
            forall|i: int| #![auto]
                0 <= i < k && i % (np as int) == 0 ==> out@[i]@.pos == center_m(*sim_params, i / (np as int))
                    && out@[i]@.vel == bulk_m(*sim_params, i / (np as int))
                    && out@[i]@.mass == sim_params.central_mass,
            forall|i: int| #![auto] 0 <= i < k && i % (np as int) != 0 ==> out@[i]@.mass == ONE,
            galaxy_type is Elliptical ==> forall|i: int| #![auto]
                0 <= i < k && i % (np as int) != 0
                    ==> mag2_m(vsub_m(out@[i]@.pos, center_m(*sim_params, i / (np as int)))) <= R2_MAX
                        && (sim_params.bulge_fraction == 0
                            ==> mag2_m(vsub_m(out@[i]@.pos, center_m(*sim_params, i / (np as int)))) >= R2_MIN),
        decreases total - k,
    {
        let ghost s_it = rng.state;
        let ghost out_old = out@;
        let o = gen_particle(galaxy_type, sim_params, k, &mut rng);
        match o {
            None => {
                proof {
                    assert(rest_m(galaxy_type, *sim_params, k as int, s_it).0 is None);
                }
                return Err(GenError::SamplingExhausted);
            },
            Some(part) => {
                out.push(part);
                k = k + 1;
                proof {
                    let t = galaxy_type;
                    let p = *sim_params;
                    let (op, s1) = particle_m(t, p, k - 1, s_it);
                    assert(op == Some(part@));
                    assert(s1 == rng.state);
                    let cur_old = rest_m(t, p, k - 1, s_it);
                    let cur_new = rest_m(t, p, k as int, rng.state);
                    assert(cur_old == (match cur_new.0 {
                        None => (None::<Seq<Pm>>, cur_new.1),
                        Some(sq) => (Some(seq![part@] + sq), cur_new.1),
                    }));
                    assert(pmodels(out@) =~= pmodels(out_old).push(part@));
                    if cur_new.0 is Some {
                        assert(pmodels(out_old) + (seq![part@] + cur_new.0->Some_0)
                            =~= pmodels(out@) + cur_new.0->Some_0);
                    }
                }
            },
        }
    }
    proof {
        assert(rest_m(galaxy_type, *sim_params, k as int, rng.state)
            == (Some(Seq::<Pm>::empty()), rng.state));
        assert(pmodels(out@) + Seq::<Pm>::empty() =~= pmodels(out@));
        assert(pmodels(out@).len() == out@.len());
    }
    Ok(out)
}

} // verus!
