//! Seeded generation of a starfield: names, spectral classes, planet
//! counts and positions, reproducible from a 64-bit seed.

pub mod generator;
pub mod random;
pub mod seed;
pub mod weighted;
