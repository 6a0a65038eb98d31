//! End-to-end tests of the generator: determinism, the count and central
//! particle invariants, the elliptical magnitude bounds, the validation
//! errors, and the exhaustion failure.

use galaxy_sim::initialize::create_galaxies;
use galaxy_sim::layout::{bulk_velocity, galaxy_center};
use galaxy_sim::params::{GalaxyType, GenError, SimParams};

fn rel_mag2(p: &galaxy_sim::particle::Particle, c: &galaxy_sim::particle::Vec3) -> i128 {
    let dx = p.pos.x - c.x;
    let dy = p.pos.y - c.y;
    let dz = p.pos.z - c.z;
    (dx * dx) / 1_000_000 + (dy * dy) / 1_000_000 + (dz * dz) / 1_000_000
}

#[test]
fn identical_runs_yield_identical_output() {
    let mut p = SimParams::default();
    p.num_particles = 300;
    p.num_galaxies = 2;
    p.galaxy_velocity = 100_000;
    let a = create_galaxies(GalaxyType::Elliptical, &p, 7).unwrap();
    let b = create_galaxies(GalaxyType::Elliptical, &p, 7).unwrap();
    assert_eq!(a, b);
    let c = create_galaxies(GalaxyType::Spiral, &p, 99).unwrap();
    let d = create_galaxies(GalaxyType::Spiral, &p, 99).unwrap();
    assert_eq!(c, d);
}

#[test]
fn different_seeds_yield_different_output() {
    let mut p = SimParams::default();
    p.num_particles = 100;
    let a = create_galaxies(GalaxyType::Elliptical, &p, 1).unwrap();
    let b = create_galaxies(GalaxyType::Elliptical, &p, 2).unwrap();
    assert_ne!(a, b);
}

#[test]
fn output_length_is_count_times_galaxies() {
    for (np, ng, t) in [
        (1u32, 1u32, GalaxyType::Elliptical),
        (2, 3, GalaxyType::Elliptical),
        (50, 4, GalaxyType::Spiral),
        (200, 1, GalaxyType::Spiral),
    ] {
        let mut p = SimParams::default();
        p.num_particles = np;
        p.num_galaxies = ng;
        let v = create_galaxies(t, &p, 5).unwrap();
        assert_eq!(v.len(), (np * ng) as usize);
    }
}

#[test]
fn central_particles_sit_at_their_centers() {
    let mut p = SimParams::default();
    p.num_particles = 50;
    p.num_galaxies = 3;
    p.galaxy_velocity = 200_000;
    for t in [GalaxyType::Elliptical, GalaxyType::Spiral] {
        let v = create_galaxies(t, &p, 11).unwrap();
        for g in 0..3u32 {
            let c = galaxy_center(&p, g);
            let central = &v[(g as usize) * 50];
            assert_eq!(central.pos, c);
            assert_eq!(central.vel, bulk_velocity(&p, g));
            assert_eq!(central.mass, p.central_mass);
            assert_eq!(central.acc.x, 0);
            assert_eq!(central.acc.y, 0);
            assert_eq!(central.acc.z, 0);
        }
    }
}

#[test]
fn single_galaxy_center_is_origin_with_axis_velocity() {
    let mut p = SimParams::default();
    p.num_particles = 10;
    p.galaxy_velocity = 123_456;
    let v = create_galaxies(GalaxyType::Elliptical, &p, 3).unwrap();
    assert_eq!(v[0].pos.x, 0);
    assert_eq!(v[0].pos.y, 0);
    assert_eq!(v[0].pos.z, 0);
    assert_eq!(v[0].vel.x, 123_456);
    assert_eq!(v[0].vel.y, 0);
    assert_eq!(v[0].vel.z, 0);
}

#[test]
fn non_central_particles_have_unit_mass() {
    let mut p = SimParams::default();
    p.num_particles = 80;
    p.num_galaxies = 2;
    for t in [GalaxyType::Elliptical, GalaxyType::Spiral] {
        let v = create_galaxies(t, &p, 21).unwrap();
        for (i, part) in v.iter().enumerate() {
            if i % 80 != 0 {
                assert_eq!(part.mass, 1_000_000);
            }
        }
    }
}

#[test]
fn elliptical_offsets_stay_inside_outer_radius() {
    let mut p = SimParams::default();
    p.num_particles = 400;
    p.num_galaxies = 2;
    let v = create_galaxies(GalaxyType::Elliptical, &p, 17).unwrap();
    for g in 0..2u32 {
        let c = galaxy_center(&p, g);
        for i in 1..400usize {
            let m2 = rel_mag2(&v[(g as usize) * 400 + i], &c);
            assert!(m2 <= 360_000);
        }
    }
}

#[test]
fn disk_offsets_respect_inner_radius() {
    let mut p = SimParams::default();
    p.num_particles = 400;
    p.bulge_fraction = 0;
    let v = create_galaxies(GalaxyType::Elliptical, &p, 23).unwrap();
    let c = galaxy_center(&p, 0);
    for i in 1..400usize {
        let m2 = rel_mag2(&v[i], &c);
        assert!((400..=360_000).contains(&m2));
    }
}

#[test]
fn bulge_only_offsets_stay_inside_outer_radius() {
    let mut p = SimParams::default();
    p.num_particles = 200;
    p.bulge_fraction = 1_000_000;
    let v = create_galaxies(GalaxyType::Elliptical, &p, 29).unwrap();
    let c = galaxy_center(&p, 0);
    for i in 1..200usize {
        assert!(rel_mag2(&v[i], &c) <= 360_000);
    }
}

#[test]
fn spiral_bulge_band_and_masses_hold() {
    let mut p = SimParams::default();
    p.num_particles = 300;
    let v = create_galaxies(GalaxyType::Spiral, &p, 31).unwrap();
    assert_eq!(v.len(), 300);
    for part in &v[1..] {
        assert_eq!(part.mass, 1_000_000);
        assert_eq!(part.acc.x, 0);
        assert_eq!(part.acc.y, 0);
        assert_eq!(part.acc.z, 0);
    }
}

#[test]
fn example_scenario_hundred_particles() {
    let mut p = SimParams::default();
    p.num_particles = 100;
    p.num_galaxies = 1;
    p.central_mass = 1_000_000_000_000;
    let v = create_galaxies(GalaxyType::Elliptical, &p, 42).unwrap();
    assert_eq!(v.len(), 100);
    assert_eq!(v[0].pos.x, 0);
    assert_eq!(v[0].pos.y, 0);
    assert_eq!(v[0].pos.z, 0);
    assert_eq!(v[0].mass, 1_000_000_000_000);
    let c = galaxy_center(&p, 0);
    for i in 1..100usize {
        assert_eq!(v[i].mass, 1_000_000);
        assert!(rel_mag2(&v[i], &c) <= 360_000);
    }
}

#[test]
fn small_elliptical_run_matches_expected_values() {
    let mut p = SimParams::default();
    p.num_particles = 3;
    let v = create_galaxies(GalaxyType::Elliptical, &p, 1).unwrap();
    let expected: [([i128; 3], [i128; 3], i128); 3] = [
        ([0, 0, 0], [0, 0, 0], 1_000_000_000_000),
        ([196_483, -161_322, 1_997], [1_142_619, 1_408_181, -4_395], 1_000_000),
        ([-44_158, 43_205, 27_587], [-1_145_613, -1_178_659, -50_428], 1_000_000),
    ];
    for (part, (pos, vel, mass)) in v.iter().zip(expected.iter()) {
        assert_eq!([part.pos.x, part.pos.y, part.pos.z], *pos);
        assert_eq!([part.vel.x, part.vel.y, part.vel.z], *vel);
        assert_eq!(part.mass, *mass);
    }
}

#[test]
fn small_spiral_run_matches_expected_values() {
    let mut p = SimParams::default();
    p.num_particles = 3;
    let v = create_galaxies(GalaxyType::Spiral, &p, 2).unwrap();
    let expected: [([i128; 3], [i128; 3], i128); 3] = [
        ([0, 0, 0], [0, 0, 0], 1_000_000_000_000),
        ([38_219, 0, 783], [12_960, -3_407, 547], 1_000_000),
        ([-18_032, 2_647, 15_778], [-14_064, -46_500, 17_921], 1_000_000),
    ];
    for (part, (pos, vel, mass)) in v.iter().zip(expected.iter()) {
        assert_eq!([part.pos.x, part.pos.y, part.pos.z], *pos);
        assert_eq!([part.vel.x, part.vel.y, part.vel.z], *vel);
        assert_eq!(part.mass, *mass);
    }
}

#[test]
fn invalid_configurations_are_rejected() {
    let mut p = SimParams::default();
    p.num_galaxies = 0;
    assert_eq!(p.validate(), Err(GenError::InvalidConfig));
    let mut p2 = SimParams::default();
    p2.central_mass = 0;
    assert_eq!(p2.validate(), Err(GenError::InvalidConfig));
    let mut p3 = SimParams::default();
    p3.bulge_scale_radius = -5;
    assert_eq!(p3.validate(), Err(GenError::InvalidConfig));
    let mut p4 = SimParams::default();
    p4.num_particles = 2_000_000;
    assert_eq!(p4.validate(), Err(GenError::InvalidConfig));
    let mut p5 = SimParams::default();
    p5.spiral.spiral_width = 0;
    assert_eq!(p5.validate(), Err(GenError::InvalidConfig));
}

#[test]
fn valid_configuration_passes_unchanged() {
    let p = SimParams::default();
    assert_eq!(p.validate(), Ok(p));
}

#[test]
fn impossible_acceptance_band_exhausts_sampling() {
    let mut p = SimParams::default();
    p.num_particles = 2;
    p.bulge_fraction = 0;
    p.disk_scale_radius = 1;
    p.disk_scale_height = 1;
    let r = create_galaxies(GalaxyType::Elliptical, &p, 9);
    assert_eq!(r, Err(GenError::SamplingExhausted));
}
