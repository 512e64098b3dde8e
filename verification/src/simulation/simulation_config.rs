//! The simulation state: a fixed set of named fields, their defaults, and
//! access to a field by identifier or by name.

use vstd::prelude::*;
use crate::scalar::Scalar;
use crate::scalar::lemma_clamp_within;
use crate::simulation::field_id::FieldId;
use crate::simulation::field_id::FIELD_COUNT;
use crate::simulation::field_id::lemma_listing_complete;
use crate::simulation::simulation_field::SimulationField;
use crate::simulation::simulation_field::SimulationFieldKind;

verus! {

// The bit patterns of the numbers that the defaults are made of: for each
// decimal the nearest single-precision number.
/// -88
pub const BITS_NEG_88: u32 = 0xc2b0_0000;

/// 0
pub const BITS_0: u32 = 0x0000_0000;

/// 0.02
pub const BITS_0_02: u32 = 0x3ca3_d70a;

/// 0.03
pub const BITS_0_03: u32 = 0x3cf5_c28f;

/// 0.05
pub const BITS_0_05: u32 = 0x3d4c_cccd;

/// 0.07
pub const BITS_0_07: u32 = 0x3d8f_5c29;

/// 0.1
pub const BITS_0_1: u32 = 0x3dcc_cccd;

/// 0.25
pub const BITS_0_25: u32 = 0x3e80_0000;

/// 0.5
pub const BITS_0_5: u32 = 0x3f00_0000;

/// 1
pub const BITS_1: u32 = 0x3f80_0000;

/// 2
pub const BITS_2: u32 = 0x4000_0000;

/// 3
pub const BITS_3: u32 = 0x4040_0000;

/// 3.231
pub const BITS_3_231: u32 = 0x404e_c8b4;

/// 4
pub const BITS_4: u32 = 0x4080_0000;

/// 5
pub const BITS_5: u32 = 0x40a0_0000;

/// 10
pub const BITS_10: u32 = 0x4120_0000;

/// 12
pub const BITS_12: u32 = 0x4140_0000;

/// 19
pub const BITS_19: u32 = 0x4198_0000;

/// 20
pub const BITS_20: u32 = 0x41a0_0000;

/// 25
pub const BITS_25: u32 = 0x41c8_0000;

/// 58
pub const BITS_58: u32 = 0x4268_0000;

/// 60
pub const BITS_60: u32 = 0x4270_0000;

/// 100
pub const BITS_100: u32 = 0x42c8_0000;

/// 800
pub const BITS_800: u32 = 0x4448_0000;

/// 1365.4
pub const BITS_1365_4: u32 = 0x44aa_accd;

/// 2000
pub const BITS_2000: u32 = 0x44fa_0000;

/// Why a write by name failed.
#[derive(Clone, Copy, Debug, PartialEq, Eq, Structural)]
pub enum FieldError {
    /// The name is not the name of a field.
    UnknownField,
}

/// The parameters and state variables of the heating loop.
#[derive(Clone, Copy, Debug, PartialEq, Eq, Structural)]
pub struct SimulationConfig {
    /// Ambient temperature, measured in °C
    pub ambient_temp: SimulationField,
    /// Mass flow rate of water drawn from the storage tank by the user (kg/s)
    pub load_mass_flow_rate: SimulationField,
    /// Temperature of incoming water, measured in °C
    pub load_temp: SimulationField,
    /// Solar panel area, measured in m²
    pub panel_area: SimulationField,
    /// Solar panel efficiency factor "η" (0.0-1.0)
    pub panel_efficiency: SimulationField,
    /// Panel heat loss coefficient, measured in W/(m²·K)
    pub panel_heat_loss_coefficient: SimulationField,
    /// Solar panel loss area, measured in m²
    pub panel_loss_area: SimulationField,
    /// Outer surface area of the pipe, measured in m²
    pub pipe_outer_surface_area: SimulationField,
    /// Overall heat transfer coefficient for pipe insulation, measured in W/(m²·K)
    pub pipe_overall_heat_transfer_coefficient: SimulationField,
    /// Solar irradiance (energy/area), measured in W/m²
    pub solar_irradiance: SimulationField,
    /// Average tank temperature, measured in °C
    pub tank_average_temp: SimulationField,
    /// Tank heat loss coefficient, measured in W/(m²·K)
    pub tank_heat_loss_coefficient: SimulationField,
    /// Tank height to diameter ratio to define its shape.
    pub tank_height_diameter_ratio: SimulationField,
    /// Tank surface area, measured in m²
    pub tank_surface_area: SimulationField,
    /// Amount of water in the tank, measured in kg. Its upper bound is the
    /// mass of a full tank, which the geometry stage recomputes every tick.
    pub tank_water_mass: SimulationField,
    /// Volumetric pump flow rate, measured in m³/s. No equation reads it yet.
    pub pump_flow_rate: SimulationField,
    /// Water temperature entering panel, measured in °C
    pub water_temp_in: SimulationField,
}

/// The field of the given kind whose value and bounds have the given bit
/// patterns.
pub open spec fn field_of(kind: SimulationFieldKind, value: u32, min: u32, max: u32) -> SimulationField {
    SimulationField {
        kind,
        max: Scalar { bits: max },
        min: Scalar { bits: min },
        value: Scalar { bits: value },
    }
}

impl SimulationConfig {
    /// The state at startup. Where a default lies below its range
    /// (the two heat-loss coefficients), the field starts at the lower bound.
    pub open spec fn spec_default() -> SimulationConfig {
        SimulationConfig {
            ambient_temp: field_of(
                SimulationFieldKind::Slider,
                BITS_25,
                BITS_NEG_88,
                BITS_58,
            ),
            load_mass_flow_rate: field_of(
                SimulationFieldKind::Slider,
                BITS_0_1,
                BITS_0,
                BITS_10,
            ),
            load_temp: field_of(
                SimulationFieldKind::Slider,
                BITS_20,
                BITS_10,
                BITS_60,
            ),
            panel_area: field_of(
                SimulationFieldKind::Slider,
                BITS_2,
                BITS_1,
                BITS_3,
            ),
            panel_efficiency: field_of(
                SimulationFieldKind::Slider,
                BITS_0_25,
                BITS_0,
                BITS_1,
            ),
            panel_heat_loss_coefficient: field_of(
                SimulationFieldKind::Slider,
                BITS_4,
                BITS_4,
                BITS_19,
            ),
            panel_loss_area: field_of(
                SimulationFieldKind::Slider,
                BITS_0_1,
                BITS_0,
                BITS_3,
            ),
            pipe_outer_surface_area: field_of(
                SimulationFieldKind::Slider,
                BITS_3,
                BITS_0_5,
                BITS_12,
            ),
            pipe_overall_heat_transfer_coefficient: field_of(
                SimulationFieldKind::Slider,
                BITS_0_03,
                BITS_0_02,
                BITS_0_07,
            ),
            solar_irradiance: field_of(
                SimulationFieldKind::Slider,
                BITS_800,
                BITS_0,
                BITS_1365_4,
            ),
            tank_average_temp: field_of(
                SimulationFieldKind::ReadOnly,
                BITS_25,
                BITS_10,
                BITS_60,
            ),
            tank_heat_loss_coefficient: field_of(
                SimulationFieldKind::Slider,
                BITS_3_231,
                BITS_3_231,
                BITS_20,
            ),
            tank_height_diameter_ratio: field_of(
                SimulationFieldKind::Slider,
                BITS_2,
                BITS_1,
                BITS_3,
            ),
            tank_surface_area: field_of(
                SimulationFieldKind::Slider,
                BITS_5,
                BITS_1,
                BITS_20,
            ),
            tank_water_mass: field_of(
                SimulationFieldKind::Slider,
                BITS_100,
                BITS_0,
                BITS_2000,
            ),
            pump_flow_rate: field_of(
                SimulationFieldKind::Slider,
                BITS_0_05,
                BITS_0_05,
                BITS_0_5,
            ),
            water_temp_in: field_of(
                SimulationFieldKind::ReadOnly,
                BITS_25,
                BITS_10,
                BITS_60,
            ),
        }
    }

    /// The field that `id` identifies.
    pub open spec fn spec_field(&self, id: FieldId) -> SimulationField {
        match id {
            FieldId::AmbientTemp => self.ambient_temp,
            FieldId::LoadMassFlowRate => self.load_mass_flow_rate,
            FieldId::LoadTemp => self.load_temp,
            FieldId::PanelArea => self.panel_area,
            FieldId::PanelEfficiency => self.panel_efficiency,
            FieldId::PanelHeatLossCoefficient => self.panel_heat_loss_coefficient,
            FieldId::PanelLossArea => self.panel_loss_area,
            FieldId::PipeOuterSurfaceArea => self.pipe_outer_surface_area,
            FieldId::PipeOverallHeatTransferCoefficient => self.pipe_overall_heat_transfer_coefficient,
            FieldId::SolarIrradiance => self.solar_irradiance,
            FieldId::TankAverageTemp => self.tank_average_temp,
            FieldId::TankHeatLossCoefficient => self.tank_heat_loss_coefficient,
            FieldId::TankHeightDiameterRatio => self.tank_height_diameter_ratio,
            FieldId::TankSurfaceArea => self.tank_surface_area,
            FieldId::TankWaterMass => self.tank_water_mass,
            FieldId::PumpFlowRate => self.pump_flow_rate,
            FieldId::WaterTempIn => self.water_temp_in,
        }
    }

    /// This state with `field` in the place that `id` identifies, all other
    /// fields kept.
    pub open spec fn with_field(self, id: FieldId, field: SimulationField) -> SimulationConfig {
        match id {
            FieldId::AmbientTemp => SimulationConfig { ambient_temp: field, ..self },
            FieldId::LoadMassFlowRate => SimulationConfig { load_mass_flow_rate: field, ..self },
            FieldId::LoadTemp => SimulationConfig { load_temp: field, ..self },
            FieldId::PanelArea => SimulationConfig { panel_area: field, ..self },
            FieldId::PanelEfficiency => SimulationConfig { panel_efficiency: field, ..self },
            FieldId::PanelHeatLossCoefficient => SimulationConfig { panel_heat_loss_coefficient: field, ..self },
            FieldId::PanelLossArea => SimulationConfig { panel_loss_area: field, ..self },
            FieldId::PipeOuterSurfaceArea => SimulationConfig { pipe_outer_surface_area: field, ..self },
            FieldId::PipeOverallHeatTransferCoefficient => SimulationConfig { pipe_overall_heat_transfer_coefficient: field, ..self },
            FieldId::SolarIrradiance => SimulationConfig { solar_irradiance: field, ..self },
            FieldId::TankAverageTemp => SimulationConfig { tank_average_temp: field, ..self },
            FieldId::TankHeatLossCoefficient => SimulationConfig { tank_heat_loss_coefficient: field, ..self },
            FieldId::TankHeightDiameterRatio => SimulationConfig { tank_height_diameter_ratio: field, ..self },
            FieldId::TankSurfaceArea => SimulationConfig { tank_surface_area: field, ..self },
            FieldId::TankWaterMass => SimulationConfig { tank_water_mass: field, ..self },
            FieldId::PumpFlowRate => SimulationConfig { pump_flow_rate: field, ..self },
            FieldId::WaterTempIn => SimulationConfig { water_temp_in: field, ..self },
        }
    }

    /// Every field has ordered bounds.
    pub open spec fn well_formed(self) -> bool {
        forall|id: FieldId| (#[trigger] self.spec_field(id)).well_formed()
    }

    /// Every field holds a number within its bounds.
    pub open spec fn all_in_range(self) -> bool {
        forall|id: FieldId| (#[trigger] self.spec_field(id)).in_range()
    }

    /// What a read by name gives: the field's snapshot, or nothing for a
    /// name that names no field.
    pub open spec fn spec_get(self, name: Seq<char>) -> Option<SimulationField> {
        match FieldId::named(name) {
            Some(id) => Some(self.spec_field(id)),
            None => None,
        }
    }

    /// The state after a write of `value` by name: the named field holds
    /// `value` clamped into its range and no other field is touched; a name
    /// that names no field changes nothing.
    pub open spec fn after_set(self, name: Seq<char>, value: Scalar) -> SimulationConfig {
        match FieldId::named(name) {
            Some(id) => self.with_field(id, self.spec_field(id).assigned(value)),
            None => self,
        }
    }

    /// What a write of `value` by name returns: the value held before and
    /// the value held after, or the error for a name that names no field.
    pub open spec fn set_result(self, name: Seq<char>, value: Scalar) -> Result<
        (Scalar, Scalar),
        FieldError,
    > {
        match FieldId::named(name) {
            Some(id) => Ok(
                (self.spec_field(id).value, self.spec_field(id).assigned(value).value),
            ),
            None => Err(FieldError::UnknownField),
        }
    }

    /// The names and snapshots of all fields, in the order of the listing.
    pub open spec fn spec_fields(self) -> Seq<(FieldId, SimulationField)> {
        Seq::new(FIELD_COUNT as nat, |i: int| (FieldId::listing()[i], self.spec_field(FieldId::listing()[i])))
    }

    /// The field that `id` identifies.
    #[verifier::when_used_as_spec(spec_field)]
    pub fn field(&self, id: FieldId) -> (field: SimulationField)
        ensures
            field == self.spec_field(id),
    {
        match id {
            FieldId::AmbientTemp => self.ambient_temp,
            FieldId::LoadMassFlowRate => self.load_mass_flow_rate,
            FieldId::LoadTemp => self.load_temp,
            FieldId::PanelArea => self.panel_area,
            FieldId::PanelEfficiency => self.panel_efficiency,
            FieldId::PanelHeatLossCoefficient => self.panel_heat_loss_coefficient,
            FieldId::PanelLossArea => self.panel_loss_area,
            FieldId::PipeOuterSurfaceArea => self.pipe_outer_surface_area,
            FieldId::PipeOverallHeatTransferCoefficient => self.pipe_overall_heat_transfer_coefficient,
            FieldId::SolarIrradiance => self.solar_irradiance,
            FieldId::TankAverageTemp => self.tank_average_temp,
            FieldId::TankHeatLossCoefficient => self.tank_heat_loss_coefficient,
            FieldId::TankHeightDiameterRatio => self.tank_height_diameter_ratio,
            FieldId::TankSurfaceArea => self.tank_surface_area,
            FieldId::TankWaterMass => self.tank_water_mass,
            FieldId::PumpFlowRate => self.pump_flow_rate,
            FieldId::WaterTempIn => self.water_temp_in,
        }
    }

    /// Puts `field` in the place that `id` identifies.
    pub fn replace_field(&mut self, id: FieldId, field: SimulationField)
        ensures
            *final(self) == old(self).with_field(id, field),
    {
        match id {
            FieldId::AmbientTemp => {
                self.ambient_temp = field;
            },
            FieldId::LoadMassFlowRate => {
                self.load_mass_flow_rate = field;
            },
            FieldId::LoadTemp => {
                self.load_temp = field;
            },
            FieldId::PanelArea => {
                self.panel_area = field;
            },
            FieldId::PanelEfficiency => {
                self.panel_efficiency = field;
            },
            FieldId::PanelHeatLossCoefficient => {
                self.panel_heat_loss_coefficient = field;
            },
            FieldId::PanelLossArea => {
                self.panel_loss_area = field;
            },
            FieldId::PipeOuterSurfaceArea => {
                self.pipe_outer_surface_area = field;
            },
            FieldId::PipeOverallHeatTransferCoefficient => {
                self.pipe_overall_heat_transfer_coefficient = field;
            },
            FieldId::SolarIrradiance => {
                self.solar_irradiance = field;
            },
            FieldId::TankAverageTemp => {
                self.tank_average_temp = field;
            },
            FieldId::TankHeatLossCoefficient => {
                self.tank_heat_loss_coefficient = field;
            },
            FieldId::TankHeightDiameterRatio => {
                self.tank_height_diameter_ratio = field;
            },
            FieldId::TankSurfaceArea => {
                self.tank_surface_area = field;
            },
            FieldId::TankWaterMass => {
                self.tank_water_mass = field;
            },
            FieldId::PumpFlowRate => {
                self.pump_flow_rate = field;
            },
            FieldId::WaterTempIn => {
                self.water_temp_in = field;
            },
        }
    }

    /// Reads a field by name.
    pub fn get(&self, name: &str) -> (snapshot: Option<SimulationField>)
        ensures
            snapshot == self.spec_get(name@),
    {
        match FieldId::from_name(name) {
            Some(id) => Some(self.field(id)),
            None => None,
        }
    }

    /// Writes a field by name: clamps `value` into the field's range, stores
    /// it, and returns the value held before and the value held now.
    ///
    /// The write is made whenever the name resolves, whatever the field's
    /// kind: the kind is part of every snapshot, and a front end that must not
    /// touch read-only fields refuses such a request before it calls this.
    pub fn set(&mut self, name: &str, value: Scalar) -> (change: Result<(Scalar, Scalar), FieldError>)
        ensures
            *final(self) == old(self).after_set(name@, value),
            change == old(self).set_result(name@, value),
    {
        match FieldId::from_name(name) {
            Some(id) => Ok(self.set_field(id, value)),
            None => Err(FieldError::UnknownField),
        }
    }

    /// Writes the field that `id` identifies: clamps `value` into the
    /// field's range, stores it, and returns the value held before and the
    /// value held now.
    pub fn set_field(&mut self, id: FieldId, value: Scalar) -> (change: (Scalar, Scalar))
        ensures
            *final(self) == old(self).with_field(id, old(self).spec_field(id).assigned(value)),
            change == (old(self).spec_field(id).value, old(self).spec_field(id).assigned(value).value),
    {
        let mut field = self.field(id);
        let change = field.assign(value);
        self.replace_field(id, field);
        change
    }

    /// Enumerates all fields with their current snapshots, in the order of
    /// the listing.
    pub fn fields(&self) -> (entries: Vec<(FieldId, SimulationField)>)
        ensures
            entries@ == self.spec_fields(),
    {
        let ids = FieldId::all();
        let mut entries: Vec<(FieldId, SimulationField)> = Vec::new();
        proof {
            lemma_listing_complete();
        }
        for i in 0..ids.len()
            invariant
                ids@ == FieldId::listing(),
                ids@.len() == FIELD_COUNT,
                entries@.len() == i,
                forall|j: int| 0 <= j < i ==> entries@[j] == self.spec_fields()[j],
        {
            let id = ids[i];
            entries.push((id, self.field(id)));
        }
        assert(entries@ =~= self.spec_fields());
        entries
    }
}

impl Default for SimulationConfig {
    fn default() -> (cfg: Self)
        ensures
            cfg == SimulationConfig::spec_default(),
            cfg.well_formed(),
            cfg.all_in_range(),
    {
        let slider = SimulationFieldKind::Slider;
        let read_only = SimulationFieldKind::ReadOnly;
        SimulationConfig {
            ambient_temp: SimulationField::new(
                Scalar::from_bits(BITS_25),
                Scalar::from_bits(BITS_NEG_88),
                Scalar::from_bits(BITS_58),
                slider,
            ),
            load_mass_flow_rate: SimulationField::new(
                Scalar::from_bits(BITS_0_1),
                Scalar::from_bits(BITS_0),
                Scalar::from_bits(BITS_10),
                slider,
            ),
            load_temp: SimulationField::new(
                Scalar::from_bits(BITS_20),
                Scalar::from_bits(BITS_10),
                Scalar::from_bits(BITS_60),
                slider,
            ),
            panel_area: SimulationField::new(
                Scalar::from_bits(BITS_2),
                Scalar::from_bits(BITS_1),
                Scalar::from_bits(BITS_3),
                slider,
            ),
            panel_efficiency: SimulationField::new_percentile(Scalar::from_bits(BITS_0_25)),
            panel_heat_loss_coefficient: SimulationField::new(
                Scalar::from_bits(BITS_0),
                Scalar::from_bits(BITS_4),
                Scalar::from_bits(BITS_19),
                slider,
            ),
            panel_loss_area: SimulationField::new(
                Scalar::from_bits(BITS_0_1),
                Scalar::from_bits(BITS_0),
                Scalar::from_bits(BITS_3),
                slider,
            ),
            pipe_outer_surface_area: SimulationField::new(
                Scalar::from_bits(BITS_3),
                Scalar::from_bits(BITS_0_5),
                Scalar::from_bits(BITS_12),
                slider,
            ),
            pipe_overall_heat_transfer_coefficient: SimulationField::new(
                Scalar::from_bits(BITS_0_03),
                Scalar::from_bits(BITS_0_02),
                Scalar::from_bits(BITS_0_07),
                slider,
            ),
            solar_irradiance: SimulationField::new(
                Scalar::from_bits(BITS_800),
                Scalar::from_bits(BITS_0),
                Scalar::from_bits(BITS_1365_4),
                slider,
            ),
            tank_average_temp: SimulationField::new(
                Scalar::from_bits(BITS_25),
                Scalar::from_bits(BITS_10),
                Scalar::from_bits(BITS_60),
                read_only,
            ),
            tank_heat_loss_coefficient: SimulationField::new(
                Scalar::from_bits(BITS_0),
                Scalar::from_bits(BITS_3_231),
                Scalar::from_bits(BITS_20),
                slider,
            ),
            tank_height_diameter_ratio: SimulationField::new(
                Scalar::from_bits(BITS_2),
                Scalar::from_bits(BITS_1),
                Scalar::from_bits(BITS_3),
                slider,
            ),
            tank_surface_area: SimulationField::new(
                Scalar::from_bits(BITS_5),
                Scalar::from_bits(BITS_1),
                Scalar::from_bits(BITS_20),
                slider,
            ),
            tank_water_mass: SimulationField::new(
                Scalar::from_bits(BITS_100),
                Scalar::from_bits(BITS_0),
                Scalar::from_bits(BITS_2000),
                slider,
            ),
            pump_flow_rate: SimulationField::new(
                Scalar::from_bits(BITS_0_05),
                Scalar::from_bits(BITS_0_05),
                Scalar::from_bits(BITS_0_5),
                slider,
            ),
            water_temp_in: SimulationField::new(
                Scalar::from_bits(BITS_25),
                Scalar::from_bits(BITS_10),
                Scalar::from_bits(BITS_60),
                read_only,
            ),
        }
    }
}

/// Replacing a field changes that field and no other.
pub proof fn lemma_with_field(cfg: SimulationConfig, id: FieldId, field: SimulationField)
    ensures
        cfg.with_field(id, field).spec_field(id) == field,
        forall|other: FieldId|
            other != id ==> #[trigger] cfg.with_field(id, field).spec_field(other)
                == cfg.spec_field(other),
{
}

/// A write by name leaves the value of the named field within the field's
/// range, however large or small the number written, provided the field's
/// bounds are ordered.
pub proof fn lemma_set_clamps_into_range(cfg: SimulationConfig, name: Seq<char>, value: Scalar)
    requires
        FieldId::named(name) is Some,
        cfg.spec_field(FieldId::named(name).unwrap()).well_formed(),
        !value.is_nan(),
    ensures
        cfg.after_set(name, value).spec_field(FieldId::named(name).unwrap()).in_range(),
        cfg.set_result(name, value) is Ok,
        cfg.set_result(name, value).unwrap().1.within(
            cfg.spec_field(FieldId::named(name).unwrap()).min,
            cfg.spec_field(FieldId::named(name).unwrap()).max,
        ),
{
    let id = FieldId::named(name).unwrap();
    lemma_with_field(cfg, id, cfg.spec_field(id).assigned(value));
    lemma_clamp_within(value, cfg.spec_field(id).min, cfg.spec_field(id).max);
}

/// A write by name touches the named field only, and of that field the
/// value only: kind and bounds stay.
pub proof fn lemma_set_touches_one_value(cfg: SimulationConfig, name: Seq<char>, value: Scalar)
    ensures
        forall|other: FieldId|
            FieldId::named(name) != Some(other) ==> #[trigger] cfg.after_set(
                name,
                value,
            ).spec_field(other) == cfg.spec_field(other),
        forall|id: FieldId|
            (#[trigger] cfg.after_set(name, value).spec_field(id)).kind == cfg.spec_field(id).kind
                && cfg.after_set(name, value).spec_field(id).min == cfg.spec_field(id).min
                && cfg.after_set(name, value).spec_field(id).max == cfg.spec_field(id).max,
        cfg.well_formed() ==> cfg.after_set(name, value).well_formed(),
{
    match FieldId::named(name) {
        Some(id) => {
            lemma_with_field(cfg, id, cfg.spec_field(id).assigned(value));
            if cfg.well_formed() {
                assert forall|other: FieldId|
                    (#[trigger] cfg.after_set(name, value).spec_field(other)).well_formed() by {
                    assert(cfg.spec_field(other).well_formed());
                }
            }
        },
        None => {},
    }
}

/// A write under a name that names no field fails with
/// [`FieldError::UnknownField`] and leaves every field as it was.
pub proof fn lemma_unknown_name_changes_nothing(cfg: SimulationConfig, name: Seq<char>, value: Scalar)
    requires
        FieldId::named(name) is None,
    ensures
        cfg.set_result(name, value) == Err::<(Scalar, Scalar), FieldError>(FieldError::UnknownField),
        cfg.after_set(name, value) == cfg,
        cfg.spec_get(name) is None,
{
}

/// A read by name after a write by the same name gives the value that the
/// write returned as the new one.
pub proof fn lemma_get_after_set(cfg: SimulationConfig, name: Seq<char>, value: Scalar)
    requires
        FieldId::named(name) is Some,
    ensures
        cfg.after_set(name, value).spec_get(name) is Some,
        cfg.after_set(name, value).spec_get(name).unwrap().value == cfg.set_result(
            name,
            value,
        ).unwrap().1,
{
    let id = FieldId::named(name).unwrap();
    lemma_with_field(cfg, id, cfg.spec_field(id).assigned(value));
}

} // verus!
