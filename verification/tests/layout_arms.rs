//! Tests of the galaxy layout symmetry, the spiral arm parity, and the
//! velocity-field building blocks.

use galaxy_sim::layout::{bulk_velocity, galaxy_center};
use galaxy_sim::params::SimParams;
use galaxy_sim::particle::Vec3;
use galaxy_sim::rng::RandomSource;
use galaxy_sim::sample::{arm_offset, gauss};
use galaxy_sim::series::{cos_turn, sin_turn};
use galaxy_sim::velocity::{dispersion, ell_speed, sp_speed};

#[test]
fn two_galaxy_centers_are_antipodal() {
    let mut p = SimParams::default();
    p.num_galaxies = 2;
    p.galaxy_velocity = 300_000;
    let c0 = galaxy_center(&p, 0);
    let c1 = galaxy_center(&p, 1);
    assert_eq!(c1.x, -c0.x);
    assert_eq!(c1.y, -c0.y);
    assert_eq!(c1.z, -c0.z);
    let v0 = bulk_velocity(&p, 0);
    let v1 = bulk_velocity(&p, 1);
    assert_eq!(v1.x, -v0.x);
    assert_eq!(v1.y, -v0.y);
    assert_eq!(v1.z, -v0.z);
}

#[test]
fn ring_centers_match_trigonometric_layout() {
    let mut p = SimParams::default();
    p.num_galaxies = 2;
    let c0 = galaxy_center(&p, 0);
    let c1 = galaxy_center(&p, 1);
    assert_eq!((c0.x, c0.y, c0.z), (0, 500_002, 0));
    assert_eq!((c1.x, c1.y, c1.z), (0, -500_002, 0));
}

#[test]
fn arm_particles_alternate_between_the_two_arms() {
    let mut p = SimParams::default();
    p.num_particles = 100;
    p.spiral.spiral_width = 1;
    let sl = p.spiral.spiral_length;
    let np = p.num_particles as i128;
    let mut rng = RandomSource::new(5);
    for i in 2u32..20 {
        let v = arm_offset(&p, i, &mut rng);
        let theta = ((i as i128) * sl * 5) / (8 * np);
        let angle = if i % 2 == 0 { theta } else { theta + 500_000 };
        let s = sin_turn(angle);
        let c = cos_turn(angle);
        // the offset lies on the ray of its arm's angle, up to rounding
        let twist = v.x * s - v.y * c;
        assert!(twist.abs() <= 3_000_000, "i={} twist={}", i, twist);
        // and on the positive side of that ray, which separates the arms
        if c.abs() > 200_000 {
            assert_eq!(v.x.signum(), c.signum(), "i={}", i);
        }
    }
}

#[test]
fn rotation_curve_speeds_match_expected_values() {
    let p = SimParams::default();
    let rel = Vec3 { x: 100_000, y: 0, z: 0 };
    assert_eq!(ell_speed(&p, &rel), 1_883_093);
    assert_eq!(sp_speed(&p, &rel), 3_162);
    let origin = Vec3 { x: 0, y: 0, z: 0 };
    assert_eq!(sp_speed(&p, &origin), 0);
}

#[test]
fn dispersion_draws_stay_in_their_cubes() {
    let mut rng = RandomSource::new(77);
    for _ in 0..200 {
        let hot = dispersion(true, &mut rng);
        assert!(hot.x.abs() <= 75_000 && hot.y.abs() <= 75_000 && hot.z.abs() <= 75_000);
        let cold = dispersion(false, &mut rng);
        assert!(cold.x.abs() <= 25_000 && cold.y.abs() <= 25_000 && cold.z.abs() <= 5_000);
    }
}

#[test]
fn gaussian_draws_are_reproducible_and_bounded() {
    let mut a = RandomSource::new(13);
    let mut b = RandomSource::new(13);
    for _ in 0..100 {
        let ga = gauss(40_000, &mut a);
        let gb = gauss(40_000, &mut b);
        assert_eq!(ga, gb);
        assert!(ga.abs() <= 11_000_000_000_000);
    }
}
