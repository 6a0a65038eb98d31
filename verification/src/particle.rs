//! The particle record and its mathematical model.
//!
//! A particle is ten scalars — position, velocity, acceleration, mass — in
//! the exact field order the external upload path consumes. The model types
//! (`V3m`, `Pm`) mirror them over unbounded integers, so contracts can speak
//! about whole generation runs without range side conditions.

use vstd::prelude::*;
use crate::fixed::{fmul, fmul_m, lemma_fmul_self_nonneg, lemma_fmul_bound, FIX_MAX};

verus! {

/// A fixed-point vector in model space.
#[derive(Clone, Copy, Debug, PartialEq, Eq, Structural)]
pub struct Vec3 {
    pub x: i128,
    pub y: i128,
    pub z: i128,
}

/// The model of a vector: the same three coordinates as unbounded integers.
pub struct V3m {
    pub x: int,
    pub y: int,
    pub z: int,
}

impl View for Vec3 {
    type V = V3m;

    open spec fn view(&self) -> V3m {
        V3m { x: self.x as int, y: self.y as int, z: self.z as int }
    }
}

/// The zero vector of the model.
pub open spec fn v3_zero() -> V3m {
    V3m { x: 0, y: 0, z: 0 }
}

/// Componentwise sum of two model vectors.
pub open spec fn vadd_m(a: V3m, b: V3m) -> V3m {
    V3m { x: a.x + b.x, y: a.y + b.y, z: a.z + b.z }
}

/// Componentwise difference of two model vectors.
pub open spec fn vsub_m(a: V3m, b: V3m) -> V3m {
    V3m { x: a.x - b.x, y: a.y - b.y, z: a.z - b.z }
}

/// Componentwise negation of a model vector.
pub open spec fn vneg_m(a: V3m) -> V3m {
    V3m { x: -a.x, y: -a.y, z: -a.z }
}

/// All three coordinates within `b` of zero.
pub open spec fn v3_bounded(a: V3m, b: int) -> bool {
    &&& -b <= a.x <= b
    &&& -b <= a.y <= b
    &&& -b <= a.z <= b
}

/// Squared magnitude of a model vector, in fixed-point units.
pub open spec fn mag2_m(a: V3m) -> int {
    fmul_m(a.x, a.x) + fmul_m(a.y, a.y) + fmul_m(a.z, a.z)
}

impl Vec3 {
    /// The origin.
    pub fn zero() -> (r: Vec3)
        ensures
            r@ == v3_zero(),
    {
        Vec3 { x: 0, y: 0, z: 0 }
    }

    /// Componentwise vector sum.
    pub fn plus(&self, other: &Vec3) -> (r: Vec3)
        requires
            v3_bounded(self@, 1_000_000_000_000_000_000_000_000),
            v3_bounded(other@, 1_000_000_000_000_000_000_000_000),
        ensures
            r@ == vadd_m(self@, other@),
    {
        Vec3 { x: self.x + other.x, y: self.y + other.y, z: self.z + other.z }
    }

    /// Squared magnitude in fixed-point units.
    pub fn mag2(&self) -> (r: i128)
        requires
            v3_bounded(self@, FIX_MAX as int),
        ensures
            r == mag2_m(self@),
            0 <= r,
    {
        proof {
            lemma_fmul_self_nonneg(self.x as int);
            lemma_fmul_self_nonneg(self.y as int);
            lemma_fmul_self_nonneg(self.z as int);
            lemma_fmul_bound(self.x as int, self.x as int, FIX_MAX as int, FIX_MAX as int);
            lemma_fmul_bound(self.y as int, self.y as int, FIX_MAX as int, FIX_MAX as int);
            lemma_fmul_bound(self.z as int, self.z as int, FIX_MAX as int, FIX_MAX as int);
        }
        fmul(self.x, self.x) + fmul(self.y, self.y) + fmul(self.z, self.z)
    }
}

/// One particle of the produced sequence: position, velocity, acceleration
/// and mass, in the order the external pipeline reads them.
#[derive(Clone, Copy, Debug, PartialEq, Eq, Structural)]
pub struct Particle {
    pub pos: Vec3,
    pub vel: Vec3,
    pub acc: Vec3,
    pub mass: i128,
}

/// The model of a particle.
pub struct Pm {
    pub pos: V3m,
    pub vel: V3m,
    pub acc: V3m,
    pub mass: int,
}

impl View for Particle {
    type V = Pm;

    open spec fn view(&self) -> Pm {
        Pm { pos: self.pos@, vel: self.vel@, acc: self.acc@, mass: self.mass as int }
    }
}

/// The models of a sequence of particles.
pub open spec fn pmodels(s: Seq<Particle>) -> Seq<Pm> {
    s.map_values(|p: Particle| p@)
}

} // verus!
