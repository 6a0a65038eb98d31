//! Procedural initial-condition generator for galaxy simulations.
//!
//! The generator turns a validated parameter set, a morphology choice and a
//! seed into a flat, ordered sequence of particles (position, velocity,
//! acceleration, mass), one high-mass central particle first per galaxy.
//! All quantities are fixed-point integers in micro-units (one model unit is
//! `fixed::ONE`), so every step of the pipeline is deterministic and its
//! result is pinned by a functional model in the contracts.

pub mod fixed;
pub mod rng;
pub mod series;
pub mod params;
pub mod particle;
pub mod layout;
pub mod sample;
pub mod velocity;
pub mod initialize;
