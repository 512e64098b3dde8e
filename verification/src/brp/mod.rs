//! Methods offered to remote callers.

pub mod update_field;

pub use update_field::simulation_update_field;
