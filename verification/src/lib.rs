//! Host-side core of a GPU-driven flocking simulation: the population
//! generator, the byte-exact buffer layout shared with the kernels, and the
//! double-buffered compute/render frame orchestration.

pub mod boid;
pub mod frame;
pub mod layout;
pub mod mirror;
