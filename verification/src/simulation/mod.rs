//! The simulation state and the stages that update it.

pub mod field_id;
pub mod geometry;
pub mod scheduler;
pub mod simulation_config;
pub mod simulation_field;
pub mod thermal;

pub use field_id::FieldId;
pub use geometry::TankGeometry;
pub use geometry::tank_geometry;
pub use geometry::update_tank_geometry;
pub use scheduler::FixedStepScheduler;
pub use scheduler::TickAction;
pub use scheduler::TickEvent;
pub use scheduler::TickPhase;
pub use simulation_config::FieldError;
pub use simulation_config::SimulationConfig;
pub use simulation_field::SimulationField;
pub use simulation_field::SimulationFieldKind;
pub use thermal::ThermalInputs;
pub use thermal::has_thermal_mass;
pub use thermal::run_simulation;
pub use thermal::thermal_inputs;
