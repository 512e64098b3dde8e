//! The geometry stage: the tank's capacity follows its shape, and the water
//! in it never exceeds the capacity.
//!
//! The tank is a closed cylinder with surface area `A` and height
//! `k` times its diameter. Its radius is `r = sqrt(A / (2π(1 + 2k)))`, its
//! volume `2πk r³`, and the mass of a full tank is that volume times the
//! density of water. The caller evaluates these in single precision from
//! [`TankGeometry`] and hands the mass to [`update_tank_geometry`].

use vstd::prelude::*;
use crate::scalar::Scalar;
use crate::simulation::field_id::FieldId;
use crate::simulation::simulation_config::SimulationConfig;
use crate::simulation::simulation_field::SimulationField;

verus! {

/// Liquid water density (kg/m³): the bit pattern of 1000.
pub const WATER_DENSITY: u32 = 0x447a_0000;

/// What the capacity of the tank is computed from.
#[derive(Clone, Copy, Debug, PartialEq, Eq, Structural)]
pub struct TankGeometry {
    /// Total surface area `A`, in m².
    pub surface_area: Scalar,
    /// Ratio `k` of height to diameter.
    pub height_diameter_ratio: Scalar,
}

/// The shape of the tank in `cfg`.
pub open spec fn spec_tank_geometry(cfg: &SimulationConfig) -> TankGeometry {
    TankGeometry {
        surface_area: cfg.tank_surface_area.value,
        height_diameter_ratio: cfg.tank_height_diameter_ratio.value,
    }
}

/// The water mass after the capacity became `mass_if_full`: lowered to the
/// capacity where it was above, and never raised.
pub open spec fn lowered_mass(mass: Scalar, mass_if_full: Scalar) -> Scalar {
    if mass.gt(mass_if_full) {
        mass_if_full
    } else {
        mass
    }
}

/// The state after the geometry stage found the mass of a full tank to be
/// `mass_if_full`: that is the upper bound of the water mass, the water mass
/// is lowered to it where it was above, and nothing else has changed.
pub open spec fn after_geometry(cfg: SimulationConfig, mass_if_full: Scalar) -> SimulationConfig {
    SimulationConfig {
        tank_water_mass: SimulationField {
            max: mass_if_full,
            value: lowered_mass(cfg.tank_water_mass.value, mass_if_full),
            ..cfg.tank_water_mass
        },
        ..cfg
    }
}

/// The shape of the tank, for the caller to compute the capacity from.
#[verifier::when_used_as_spec(spec_tank_geometry)]
pub fn tank_geometry(cfg: &SimulationConfig) -> (geometry: TankGeometry)
    ensures
        geometry == spec_tank_geometry(cfg),
{
    TankGeometry {
        surface_area: cfg.tank_surface_area.value(),
        height_diameter_ratio: cfg.tank_height_diameter_ratio.value(),
    }
}

/// Runs the geometry stage with the mass of a full tank that the caller
/// computed from [`tank_geometry`].
pub fn update_tank_geometry(cfg: &mut SimulationConfig, mass_if_full: Scalar)
    ensures
        *final(cfg) == after_geometry(*old(cfg), mass_if_full),
{
    cfg.tank_water_mass.set_max(mass_if_full);
}

/// Where the capacity falls below the water mass, the stage leaves the water
/// mass at the capacity exactly: value and upper bound are the same pattern.
pub proof fn lemma_shrunk_capacity_clamps_mass(cfg: SimulationConfig, mass_if_full: Scalar)
    requires
        mass_if_full.lt(cfg.tank_water_mass.value),
    ensures
        after_geometry(cfg, mass_if_full).tank_water_mass.value == mass_if_full,
        after_geometry(cfg, mass_if_full).tank_water_mass.value == after_geometry(
            cfg,
            mass_if_full,
        ).tank_water_mass.max,
{
}

/// Where the water mass is the capacity exactly, the stage leaves the water
/// mass as it is.
pub proof fn lemma_mass_at_capacity_stays(cfg: SimulationConfig, mass_if_full: Scalar)
    requires
        cfg.tank_water_mass.value.num_eq(mass_if_full),
    ensures
        after_geometry(cfg, mass_if_full).tank_water_mass.value == cfg.tank_water_mass.value,
{
}

/// The stage never raises the water mass: a mass that is not above the
/// capacity stays, and a mass that is a number ends at or below the capacity
/// when that is a number too.
pub proof fn lemma_mass_never_raised(cfg: SimulationConfig, mass_if_full: Scalar)
    ensures
        !cfg.tank_water_mass.value.gt(mass_if_full) ==> after_geometry(
            cfg,
            mass_if_full,
        ).tank_water_mass.value == cfg.tank_water_mass.value,
        !cfg.tank_water_mass.value.is_nan() && !mass_if_full.is_nan() ==> after_geometry(
            cfg,
            mass_if_full,
        ).tank_water_mass.value.le(mass_if_full),
        !cfg.tank_water_mass.value.is_nan() ==> !after_geometry(
            cfg,
            mass_if_full,
        ).tank_water_mass.value.gt(cfg.tank_water_mass.value),
{
}

/// The stage keeps the bounds of every field ordered, provided the capacity
/// is a number that is not below the lower bound of the water mass.
pub proof fn lemma_geometry_keeps_well_formed(cfg: SimulationConfig, mass_if_full: Scalar)
    requires
        cfg.well_formed(),
        cfg.tank_water_mass.min.le(mass_if_full),
    ensures
        after_geometry(cfg, mass_if_full).well_formed(),
{
    let after = after_geometry(cfg, mass_if_full);
    assert forall|id: FieldId| (#[trigger] after.spec_field(id)).well_formed() by {
        assert(cfg.spec_field(id).well_formed());
    }
}

} // verus!
