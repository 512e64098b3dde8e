//! Helpers that the front ends share.

pub mod strings;

pub use strings::capitalize;
