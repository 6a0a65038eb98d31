//! The parameter set: simulation scale, gravity, particle counts and the
//! morphology-specific shape constants, all validated at construction.
//!
//! Scalars are fixed-point micro-units (`fixed::ONE` is one model unit).
//! `wf` is the exact well-formedness condition: positivity where a zero or
//! negative value would be meaningless, and range caps that keep every
//! arithmetic step of the generator inside its proven bounds.

use vstd::prelude::*;
use crate::fixed::ONE;

verus! {

/// The morphology of a generated galaxy.
#[derive(Clone, Copy, Debug, PartialEq, Eq, Structural)]
pub enum GalaxyType {
    Elliptical,
    Spiral,
}

/// Why a generation run refused to produce output.
#[derive(Clone, Copy, Debug, PartialEq, Eq, Structural)]
pub enum GenError {
    /// The parameter set failed validation.
    InvalidConfig,
    /// A rejection-sampling loop ran out of retries.
    SamplingExhausted,
}

/// Shape constants of the spiral morphology.
#[derive(Clone, Copy, Debug, PartialEq, Eq, Structural)]
pub struct SpiralGalaxyParams {
    /// Total angular extent of an arm, in half-turns of the spiral.
    pub spiral_length: i128,
    /// Radial growth factor of the arm.
    pub spiral_size: i128,
    /// Standard deviation of the perpendicular arm scatter.
    pub spiral_width: i128,
    /// Standard deviation of the central bulge cloud.
    pub bulge_std: i128,
    /// Vertical compression factor for out-of-plane offsets.
    pub width: i128,
}

impl SpiralGalaxyParams {
    /// Exact validity condition for the spiral shape constants.
    pub open spec fn wf(self) -> bool {
        &&& 1 <= self.spiral_length <= 100_000_000
        &&& 1 <= self.spiral_size <= 1_000_000_000
        &&& 1 <= self.spiral_width <= 1_000_000_000
        &&& 1 <= self.bulge_std <= 1_000_000_000
        &&& 1 <= self.width <= 1_000_000_000
    }

    /// The default spiral shape constants.
    pub open spec fn default_m() -> SpiralGalaxyParams {
        SpiralGalaxyParams {
            spiral_length: 4_000_000,
            spiral_size: 150_000,
            spiral_width: 20_000,
            bulge_std: 40_000,
            width: 200_000,
        }
    }
}

impl Default for SpiralGalaxyParams {
    /// A two-armed spiral of moderate pitch, verified well formed.
    fn default() -> (d: Self)
        ensures
            d == SpiralGalaxyParams::default_m(),
            d.wf(),
    {
        SpiralGalaxyParams {
            spiral_length: 4_000_000,
            spiral_size: 150_000,
            spiral_width: 20_000,
            bulge_std: 40_000,
            width: 200_000,
        }
    }
}

/// The full parameter set of one generation run.
#[derive(Clone, Copy, Debug, PartialEq, Eq, Structural)]
pub struct SimParams {
    /// Integration step handed to the external integrator.
    pub delta_t: i128,
    /// Gravitational constant of the rotation-curve model.
    pub gravity: i128,
    /// Distance regularizer preventing singular speeds at small separation.
    pub softening: i128,
    /// Mass of the seed particle placed at each galaxy center.
    pub central_mass: i128,
    /// Number of particles per galaxy, central particle included.
    pub num_particles: u32,
    /// Number of galaxies laid out on the placement ring.
    pub num_galaxies: u32,
    /// Radius of the ring the galaxy centers sit on.
    pub distance_between_galaxies: i128,
    /// Bulk speed given to each galaxy.
    pub galaxy_velocity: i128,
    /// Asymptotic speed of the dark-matter halo rotation curve.
    pub halo_velocity: i128,
    /// Turnover radius of the halo rotation curve.
    pub halo_radius: i128,
    /// Probability that an elliptical particle belongs to the bulge.
    pub bulge_fraction: i128,
    /// Scale radius of the elliptical bulge's exponential profile.
    pub bulge_scale_radius: i128,
    /// Scale radius of the elliptical disk's exponential profile.
    pub disk_scale_radius: i128,
    /// Scale height of the elliptical disk's vertical profile.
    pub disk_scale_height: i128,
    /// Shape constants used by the spiral morphology.
    pub spiral: SpiralGalaxyParams,
}

impl SimParams {
    /// Exact validity condition for a parameter set: positive scales and
    /// masses, counts of at least one, and the range caps under which every
    /// arithmetic step of the generator is proven exact.
    pub open spec fn wf(self) -> bool {
        &&& 1 <= self.delta_t <= 1_000_000_000
        &&& 1 <= self.gravity <= 100_000_000
        &&& 100 <= self.softening <= 1_000_000_000
        &&& 1 <= self.central_mass <= 10_000_000_000_000
        &&& 1 <= self.num_particles <= 1_000_000
        &&& 1 <= self.num_galaxies <= 1_000
        &&& 1 <= self.distance_between_galaxies <= 1_000_000_000
        &&& 0 <= self.galaxy_velocity <= 1_000_000_000
        &&& 0 <= self.halo_velocity <= 100_000_000
        &&& 1_000 <= self.halo_radius <= 1_000_000_000
        &&& 0 <= self.bulge_fraction <= ONE
        &&& 1 <= self.bulge_scale_radius <= 1_000_000_000
        &&& 1 <= self.disk_scale_radius <= 1_000_000_000
        &&& 1 <= self.disk_scale_height <= 1_000_000_000
        &&& self.spiral.wf()
    }

    /// The default parameter set.
    pub open spec fn default_m() -> SimParams {
        SimParams {
            delta_t: 500,
            gravity: 1,
            softening: 10_000,
            central_mass: 1_000_000_000_000,
            num_particles: 10_000,
            num_galaxies: 1,
            distance_between_galaxies: 500_000,
            galaxy_velocity: 0,
            halo_velocity: 2_000_000,
            halo_radius: 2_000_000,
            bulge_fraction: 400_000,
            bulge_scale_radius: 150_000,
            disk_scale_radius: 300_000,
            disk_scale_height: 20_000,
            spiral: SpiralGalaxyParams::default_m(),
        }
    }

    /// Reject an invalid parameter set; accept a valid one unchanged.
    pub fn validate(self) -> (r: Result<SimParams, GenError>)
        ensures
            self.wf() ==> r == Ok::<SimParams, GenError>(self),
            !self.wf() ==> r == Err::<SimParams, GenError>(GenError::InvalidConfig),
    {
        let sp = self.spiral;
        let ok = 1 <= self.delta_t && self.delta_t <= 1_000_000_000
            && 1 <= self.gravity && self.gravity <= 100_000_000
            && 100 <= self.softening && self.softening <= 1_000_000_000
            && 1 <= self.central_mass && self.central_mass <= 10_000_000_000_000
            && 1 <= self.num_particles && self.num_particles <= 1_000_000
            && 1 <= self.num_galaxies && self.num_galaxies <= 1_000
            && 1 <= self.distance_between_galaxies && self.distance_between_galaxies <= 1_000_000_000
            && 0 <= self.galaxy_velocity && self.galaxy_velocity <= 1_000_000_000
            && 0 <= self.halo_velocity && self.halo_velocity <= 100_000_000
            && 1_000 <= self.halo_radius && self.halo_radius <= 1_000_000_000
            && 0 <= self.bulge_fraction && self.bulge_fraction <= ONE
            && 1 <= self.bulge_scale_radius && self.bulge_scale_radius <= 1_000_000_000
            && 1 <= self.disk_scale_radius && self.disk_scale_radius <= 1_000_000_000
            && 1 <= self.disk_scale_height && self.disk_scale_height <= 1_000_000_000
            && 1 <= sp.spiral_length && sp.spiral_length <= 100_000_000
            && 1 <= sp.spiral_size && sp.spiral_size <= 1_000_000_000
            && 1 <= sp.spiral_width && sp.spiral_width <= 1_000_000_000
            && 1 <= sp.bulge_std && sp.bulge_std <= 1_000_000_000
            && 1 <= sp.width && sp.width <= 1_000_000_000;
        if ok {
            Ok(self)
        } else {
            Err(GenError::InvalidConfig)
        }
    }
}

impl Default for SimParams {
    /// One elliptical galaxy of ten thousand particles with a heavy center,
    /// verified well formed.
    fn default() -> (d: Self)
        ensures
            d == SimParams::default_m(),
            d.wf(),
    {
        SimParams {
            delta_t: 500,
            gravity: 1,
            softening: 10_000,
            central_mass: 1_000_000_000_000,
            num_particles: 10_000,
            num_galaxies: 1,
            distance_between_galaxies: 500_000,
            galaxy_velocity: 0,
            halo_velocity: 2_000_000,
            halo_radius: 2_000_000,
            bulge_fraction: 400_000,
            bulge_scale_radius: 150_000,
            disk_scale_radius: 300_000,
            disk_scale_height: 20_000,
            spiral: SpiralGalaxyParams {
                spiral_length: 4_000_000,
                spiral_size: 150_000,
                spiral_width: 20_000,
                bulge_std: 40_000,
                width: 200_000,
            },
        }
    }
}

} // verus!
