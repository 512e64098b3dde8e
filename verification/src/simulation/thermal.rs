//! The thermal stage: one fixed timestep of the tank's heat balance.
//!
//! With tank temperature `T`, ambient temperature `Ta` and timestep `dt`:
//!
//! ```text
//! q_solar      = solar_irradiance × panel_area × panel_efficiency
//! q_panel_loss = panel_heat_loss_coefficient × panel_loss_area × (T − Ta)
//! q_pipe_loss  = pipe_overall_heat_transfer_coefficient × pipe_outer_surface_area × (T − Ta)
//! q_tank_loss  = tank_heat_loss_coefficient × tank_surface_area × (T − Ta)
//! q_net        = q_solar − q_panel_loss − q_pipe_loss − q_tank_loss
//! integrated   = T + q_net × dt / (tank_mass × cp)
//!                  − load_mass_flow_rate × (T − load_temp) × dt / tank_mass
//! ```
//!
//! The caller evaluates these in single precision from [`ThermalInputs`] and
//! hands `integrated` to [`run_simulation`], which decides whether the tank
//! takes it: a tank without water has no thermal mass and keeps its
//! temperature.

use vstd::prelude::*;
use crate::scalar::Scalar;
use crate::simulation::field_id::FieldId;
use crate::simulation::simulation_config::SimulationConfig;

verus! {

/// Constant approximation of water heat capacity (J/kg·K): the bit pattern
/// of 4181.
pub const WATER_HEAT_CAPACITY: u32 = 0x4582_a800;

/// The values that one timestep of the heat balance reads.
#[derive(Clone, Copy, Debug, PartialEq, Eq, Structural)]
pub struct ThermalInputs {
    /// Length of the timestep, in seconds.
    pub dt: Scalar,
    pub ambient_temp: Scalar,
    pub load_mass_flow_rate: Scalar,
    pub load_temp: Scalar,
    pub panel_area: Scalar,
    pub panel_efficiency: Scalar,
    pub panel_heat_loss_coefficient: Scalar,
    pub panel_loss_area: Scalar,
    pub pipe_outer_surface_area: Scalar,
    pub pipe_overall_heat_transfer_coefficient: Scalar,
    pub solar_irradiance: Scalar,
    pub tank_average_temp: Scalar,
    pub tank_heat_loss_coefficient: Scalar,
    pub tank_surface_area: Scalar,
    pub tank_water_mass: Scalar,
}

/// The current values of `cfg` that a timestep of length `dt` reads.
pub open spec fn spec_thermal_inputs(cfg: &SimulationConfig, dt: Scalar) -> ThermalInputs {
    ThermalInputs {
        dt,
        ambient_temp: cfg.ambient_temp.value,
        load_mass_flow_rate: cfg.load_mass_flow_rate.value,
        load_temp: cfg.load_temp.value,
        panel_area: cfg.panel_area.value,
        panel_efficiency: cfg.panel_efficiency.value,
        panel_heat_loss_coefficient: cfg.panel_heat_loss_coefficient.value,
        panel_loss_area: cfg.panel_loss_area.value,
        pipe_outer_surface_area: cfg.pipe_outer_surface_area.value,
        pipe_overall_heat_transfer_coefficient: cfg.pipe_overall_heat_transfer_coefficient.value,
        solar_irradiance: cfg.solar_irradiance.value,
        tank_average_temp: cfg.tank_average_temp.value,
        tank_heat_loss_coefficient: cfg.tank_heat_loss_coefficient.value,
        tank_surface_area: cfg.tank_surface_area.value,
        tank_water_mass: cfg.tank_water_mass.value,
    }
}

/// Whether the tank holds water to heat: its water mass is above zero.
pub open spec fn spec_has_thermal_mass(cfg: &SimulationConfig) -> bool {
    cfg.tank_water_mass.value.gt(Scalar { bits: 0 })
}

/// The tank temperature after a timestep for which the heat balance gave
/// `integrated`: that, where the tank holds water, and the temperature it
/// had otherwise.
pub open spec fn next_tank_temp(cfg: SimulationConfig, integrated: Scalar) -> Scalar {
    if spec_has_thermal_mass(&cfg) {
        integrated
    } else {
        cfg.tank_average_temp.value
    }
}

/// The state after the thermal stage: the tank's average temperature and
/// the temperature of the water entering the panel both hold the next tank
/// temperature, as it is and without clamping, and nothing else has changed.
pub open spec fn after_thermal(cfg: SimulationConfig, integrated: Scalar) -> SimulationConfig {
    SimulationConfig {
        tank_average_temp: cfg.tank_average_temp.with_value(next_tank_temp(cfg, integrated)),
        water_temp_in: cfg.water_temp_in.with_value(next_tank_temp(cfg, integrated)),
        ..cfg
    }
}

/// The values that a timestep of length `dt` reads, for the caller to
/// evaluate the heat balance on.
#[verifier::when_used_as_spec(spec_thermal_inputs)]
pub fn thermal_inputs(cfg: &SimulationConfig, dt: Scalar) -> (inputs: ThermalInputs)
    ensures
        inputs == spec_thermal_inputs(cfg, dt),
{
    ThermalInputs {
        dt,
        ambient_temp: cfg.ambient_temp.value(),
        load_mass_flow_rate: cfg.load_mass_flow_rate.value(),
        load_temp: cfg.load_temp.value(),
        panel_area: cfg.panel_area.value(),
        panel_efficiency: cfg.panel_efficiency.value(),
        panel_heat_loss_coefficient: cfg.panel_heat_loss_coefficient.value(),
        panel_loss_area: cfg.panel_loss_area.value(),
        pipe_outer_surface_area: cfg.pipe_outer_surface_area.value(),
        pipe_overall_heat_transfer_coefficient: cfg.pipe_overall_heat_transfer_coefficient.value(),
        solar_irradiance: cfg.solar_irradiance.value(),
        tank_average_temp: cfg.tank_average_temp.value(),
        tank_heat_loss_coefficient: cfg.tank_heat_loss_coefficient.value(),
        tank_surface_area: cfg.tank_surface_area.value(),
        tank_water_mass: cfg.tank_water_mass.value(),
    }
}

/// Whether the tank holds water to heat.
#[verifier::when_used_as_spec(spec_has_thermal_mass)]
pub fn has_thermal_mass(cfg: &SimulationConfig) -> (has: bool)
    ensures
        has == spec_has_thermal_mass(cfg),
{
    cfg.tank_water_mass.value().gt(Scalar::zero())
}

/// Runs the thermal stage with the temperature that the caller's
/// evaluation of the heat balance gave. For a tank without water the
/// argument is not looked at.
pub fn run_simulation(cfg: &mut SimulationConfig, integrated: Scalar)
    ensures
        *final(cfg) == after_thermal(*old(cfg), integrated),
{
    let mut new_tank_temp = cfg.tank_average_temp.value();
    if has_thermal_mass(cfg) {
        new_tank_temp = integrated;
    }
    // Update tank average temperature.
    cfg.tank_average_temp.set_value(new_tank_temp);
    // Update water temperature entering the panel.
    // We assume it mixes and averages with the tank temperature.
    cfg.water_temp_in.set_value(new_tank_temp);
}

/// After the stage, the water entering the panel has the tank's average
/// temperature exactly: the two values are the same pattern.
pub proof fn lemma_inlet_equals_tank(cfg: SimulationConfig, integrated: Scalar)
    ensures
        after_thermal(cfg, integrated).water_temp_in.value == after_thermal(
            cfg,
            integrated,
        ).tank_average_temp.value,
{
}

/// With no water in the tank, the stage leaves the tank's average
/// temperature as it is, whatever the heat balance gave. The inlet
/// temperature takes the tank's, so it stays too wherever it already agreed
/// with it, and then the whole state is unchanged.
pub proof fn lemma_zero_mass_keeps_temperature(cfg: SimulationConfig, integrated: Scalar)
    requires
        cfg.tank_water_mass.value.num_eq(Scalar { bits: 0 }),
    ensures
        after_thermal(cfg, integrated).tank_average_temp == cfg.tank_average_temp,
        after_thermal(cfg, integrated).water_temp_in.value == cfg.tank_average_temp.value,
        cfg.water_temp_in.value == cfg.tank_average_temp.value ==> after_thermal(cfg, integrated)
            == cfg,
{
}

/// With no water in the tank, running the stage again changes nothing
/// more: from the first run on the state stays as it is, whatever the heat
/// balance gives each time.
pub proof fn lemma_zero_mass_idempotent(cfg: SimulationConfig, first: Scalar, second: Scalar)
    requires
        cfg.tank_water_mass.value.num_eq(Scalar { bits: 0 }),
    ensures
        after_thermal(after_thermal(cfg, first), second) == after_thermal(cfg, first),
{
}

/// The stage changes no bound, so it keeps the bounds of every field
/// ordered.
pub proof fn lemma_thermal_keeps_well_formed(cfg: SimulationConfig, integrated: Scalar)
    requires
        cfg.well_formed(),
    ensures
        after_thermal(cfg, integrated).well_formed(),
{
    let after = after_thermal(cfg, integrated);
    assert forall|id: FieldId| (#[trigger] after.spec_field(id)).well_formed() by {
        assert(cfg.spec_field(id).well_formed());
    }
}

} // verus!
