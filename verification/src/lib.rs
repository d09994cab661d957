//! A particle simulation on fixed-point numbers: particles that drift, slow
//! down, fall and expire, and the live set that holds them.

pub mod laws;
pub mod particle;
pub mod random;
pub mod scalar;
pub mod vector;
pub mod world;
