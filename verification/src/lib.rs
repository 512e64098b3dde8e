//! A lumped-parameter model of a solar water-heating loop: bounded, named
//! simulation fields, the two stages of a fixed-timestep tick, and the
//! by-name access that every front end shares.
//!
//! Numbers are single-precision and travel as their IEEE 754 bit patterns
//! ([`scalar::Scalar`]). The library orders, clamps and stores them; the
//! arithmetic of the physical model is done by the caller and handed in.

pub mod scalar;
pub mod simulation;
pub mod utils;
pub mod brp;
