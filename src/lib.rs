//! Verified core of a small stochastic path tracer: lattice samplers for the
//! unit ball and disk, nearest-hit selection, the depth-bounded integrator
//! and the PPM image encoding.
pub mod sampling;
pub mod nearest;
pub mod integrator;
pub mod ppm;
