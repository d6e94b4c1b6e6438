//! Verified core of a Monte-Carlo path tracer.
//!
//! The floating-point geometry (vector algebra, sphere intersection,
//! scattering, the sampling loop) lives outside this library, in the
//! surrounding application: Verus does not reason about floating point.
//! What this library holds, with proofs, is the discrete logic the
//! renderer rests on: the path integrator's state machine and the
//! materials' absorption policy, the pixel buffer and its byte layout,
//! and the parsing of a `WIDTHxHEIGHT`-style pair out of a command-line
//! argument.

pub mod integrator;
pub mod renderer;
pub mod utils;
