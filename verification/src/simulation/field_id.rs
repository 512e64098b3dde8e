//! The names of the simulation's fields.
//!
//! The set of fields is fixed: a field is identified by a [`FieldId`], and a
//! name received from outside is resolved to one before anything is read
//! or written.

use vstd::prelude::*;

verus! {

/// `str`'s `==`. Trusted: std compares two string slices by their bytes,
/// and two strings have the same UTF-8 bytes exactly when they hold the same
/// characters.
pub assume_specification[ <str as PartialEq>::eq ](a: &str, b: &str) -> (same: bool)
    ensures
        same == (a@ == b@),
;

/// How many fields the simulation has.
pub const FIELD_COUNT: usize = 17;

/// One of the simulation's fields, in the order in which they are listed.
#[derive(Clone, Copy, Debug, PartialEq, Eq, Structural)]
pub enum FieldId {
    AmbientTemp,
    LoadMassFlowRate,
    LoadTemp,
    PanelArea,
    PanelEfficiency,
    PanelHeatLossCoefficient,
    PanelLossArea,
    PipeOuterSurfaceArea,
    PipeOverallHeatTransferCoefficient,
    SolarIrradiance,
    TankAverageTemp,
    TankHeatLossCoefficient,
    TankHeightDiameterRatio,
    TankSurfaceArea,
    TankWaterMass,
    PumpFlowRate,
    WaterTempIn,
}

impl FieldId {
    /// The name under which the field is known outside.
    pub open spec fn spec_name(self) -> Seq<char> {
        match self {
            FieldId::AmbientTemp => "ambient_temp"@,
            FieldId::LoadMassFlowRate => "load_mass_flow_rate"@,
            FieldId::LoadTemp => "load_temp"@,
            FieldId::PanelArea => "panel_area"@,
            FieldId::PanelEfficiency => "panel_efficiency"@,
            FieldId::PanelHeatLossCoefficient => "panel_heat_loss_coefficient"@,
            FieldId::PanelLossArea => "panel_loss_area"@,
            FieldId::PipeOuterSurfaceArea => "pipe_outer_surface_area"@,
            FieldId::PipeOverallHeatTransferCoefficient => "pipe_overall_heat_transfer_coefficient"@,
            FieldId::SolarIrradiance => "solar_irradiance"@,
            FieldId::TankAverageTemp => "tank_average_temp"@,
            FieldId::TankHeatLossCoefficient => "tank_heat_loss_coefficient"@,
            FieldId::TankHeightDiameterRatio => "tank_height_diameter_ratio"@,
            FieldId::TankSurfaceArea => "tank_surface_area"@,
            FieldId::TankWaterMass => "tank_water_mass"@,
            FieldId::PumpFlowRate => "pump_flow_rate"@,
            FieldId::WaterTempIn => "water_temp_in"@,
        }
    }

    /// The place of the field in the listing, from zero.
    pub open spec fn spec_index(self) -> int {
        match self {
            FieldId::AmbientTemp => 0,
            FieldId::LoadMassFlowRate => 1,
            FieldId::LoadTemp => 2,
            FieldId::PanelArea => 3,
            FieldId::PanelEfficiency => 4,
            FieldId::PanelHeatLossCoefficient => 5,
            FieldId::PanelLossArea => 6,
            FieldId::PipeOuterSurfaceArea => 7,
            FieldId::PipeOverallHeatTransferCoefficient => 8,
            FieldId::SolarIrradiance => 9,
            FieldId::TankAverageTemp => 10,
            FieldId::TankHeatLossCoefficient => 11,
            FieldId::TankHeightDiameterRatio => 12,
            FieldId::TankSurfaceArea => 13,
            FieldId::TankWaterMass => 14,
            FieldId::PumpFlowRate => 15,
            FieldId::WaterTempIn => 16,
        }
    }

    /// The field that `name` names, if it names one.
    pub open spec fn named(name: Seq<char>) -> Option<FieldId> {
        if name == "ambient_temp"@ {
            Some(FieldId::AmbientTemp)
        } else if name == "load_mass_flow_rate"@ {
            Some(FieldId::LoadMassFlowRate)
        } else if name == "load_temp"@ {
            Some(FieldId::LoadTemp)
        } else if name == "panel_area"@ {
            Some(FieldId::PanelArea)
        } else if name == "panel_efficiency"@ {
            Some(FieldId::PanelEfficiency)
        } else if name == "panel_heat_loss_coefficient"@ {
            Some(FieldId::PanelHeatLossCoefficient)
        } else if name == "panel_loss_area"@ {
            Some(FieldId::PanelLossArea)
        } else if name == "pipe_outer_surface_area"@ {
            Some(FieldId::PipeOuterSurfaceArea)
        } else if name == "pipe_overall_heat_transfer_coefficient"@ {
            Some(FieldId::PipeOverallHeatTransferCoefficient)
        } else if name == "solar_irradiance"@ {
            Some(FieldId::SolarIrradiance)
        } else if name == "tank_average_temp"@ {
            Some(FieldId::TankAverageTemp)
        } else if name == "tank_heat_loss_coefficient"@ {
            Some(FieldId::TankHeatLossCoefficient)
        } else if name == "tank_height_diameter_ratio"@ {
            Some(FieldId::TankHeightDiameterRatio)
        } else if name == "tank_surface_area"@ {
            Some(FieldId::TankSurfaceArea)
        } else if name == "tank_water_mass"@ {
            Some(FieldId::TankWaterMass)
        } else if name == "pump_flow_rate"@ {
            Some(FieldId::PumpFlowRate)
        } else if name == "water_temp_in"@ {
            Some(FieldId::WaterTempIn)
        } else {
            None
        }
    }

    /// All fields, in the order of the listing.
    pub open spec fn listing() -> Seq<FieldId> {
        seq![
            FieldId::AmbientTemp,
            FieldId::LoadMassFlowRate,
            FieldId::LoadTemp,
            FieldId::PanelArea,
            FieldId::PanelEfficiency,
            FieldId::PanelHeatLossCoefficient,
            FieldId::PanelLossArea,
            FieldId::PipeOuterSurfaceArea,
            FieldId::PipeOverallHeatTransferCoefficient,
            FieldId::SolarIrradiance,
            FieldId::TankAverageTemp,
            FieldId::TankHeatLossCoefficient,
            FieldId::TankHeightDiameterRatio,
            FieldId::TankSurfaceArea,
            FieldId::TankWaterMass,
            FieldId::PumpFlowRate,
            FieldId::WaterTempIn,
        ]
    }

    /// The name under which the field is known outside.
    pub fn name(self) -> (name: &'static str)
        ensures
            name@ == self.spec_name(),
    {
        match self {
            FieldId::AmbientTemp => "ambient_temp",
            FieldId::LoadMassFlowRate => "load_mass_flow_rate",
            FieldId::LoadTemp => "load_temp",
            FieldId::PanelArea => "panel_area",
            FieldId::PanelEfficiency => "panel_efficiency",
            FieldId::PanelHeatLossCoefficient => "panel_heat_loss_coefficient",
            FieldId::PanelLossArea => "panel_loss_area",
            FieldId::PipeOuterSurfaceArea => "pipe_outer_surface_area",
            FieldId::PipeOverallHeatTransferCoefficient => "pipe_overall_heat_transfer_coefficient",
            FieldId::SolarIrradiance => "solar_irradiance",
            FieldId::TankAverageTemp => "tank_average_temp",
            FieldId::TankHeatLossCoefficient => "tank_heat_loss_coefficient",
            FieldId::TankHeightDiameterRatio => "tank_height_diameter_ratio",
            FieldId::TankSurfaceArea => "tank_surface_area",
            FieldId::TankWaterMass => "tank_water_mass",
            FieldId::PumpFlowRate => "pump_flow_rate",
            FieldId::WaterTempIn => "water_temp_in",
        }
    }

    /// Resolves a name. Names are matched exactly: case and underscores
    /// count.
    pub fn from_name(name: &str) -> (id: Option<FieldId>)
        ensures
            id == FieldId::named(name@),
    {
        if name.eq("ambient_temp") {
            Some(FieldId::AmbientTemp)
        } else if name.eq("load_mass_flow_rate") {
            Some(FieldId::LoadMassFlowRate)
        } else if name.eq("load_temp") {
            Some(FieldId::LoadTemp)
        } else if name.eq("panel_area") {
            Some(FieldId::PanelArea)
        } else if name.eq("panel_efficiency") {
            Some(FieldId::PanelEfficiency)
        } else if name.eq("panel_heat_loss_coefficient") {
            Some(FieldId::PanelHeatLossCoefficient)
        } else if name.eq("panel_loss_area") {
            Some(FieldId::PanelLossArea)
        } else if name.eq("pipe_outer_surface_area") {
            Some(FieldId::PipeOuterSurfaceArea)
        } else if name.eq("pipe_overall_heat_transfer_coefficient") {
            Some(FieldId::PipeOverallHeatTransferCoefficient)
        } else if name.eq("solar_irradiance") {
            Some(FieldId::SolarIrradiance)
        } else if name.eq("tank_average_temp") {
            Some(FieldId::TankAverageTemp)
        } else if name.eq("tank_heat_loss_coefficient") {
            Some(FieldId::TankHeatLossCoefficient)
        } else if name.eq("tank_height_diameter_ratio") {
            Some(FieldId::TankHeightDiameterRatio)
        } else if name.eq("tank_surface_area") {
            Some(FieldId::TankSurfaceArea)
        } else if name.eq("tank_water_mass") {
            Some(FieldId::TankWaterMass)
        } else if name.eq("pump_flow_rate") {
            Some(FieldId::PumpFlowRate)
        } else if name.eq("water_temp_in") {
            Some(FieldId::WaterTempIn)
        } else {
            None
        }
    }

    /// The place of the field in the listing, from zero.
    pub fn index(self) -> (index: usize)
        ensures
            index == self.spec_index(),
            index < FIELD_COUNT,
    {
        match self {
            FieldId::AmbientTemp => 0,
            FieldId::LoadMassFlowRate => 1,
            FieldId::LoadTemp => 2,
            FieldId::PanelArea => 3,
            FieldId::PanelEfficiency => 4,
            FieldId::PanelHeatLossCoefficient => 5,
            FieldId::PanelLossArea => 6,
            FieldId::PipeOuterSurfaceArea => 7,
            FieldId::PipeOverallHeatTransferCoefficient => 8,
            FieldId::SolarIrradiance => 9,
            FieldId::TankAverageTemp => 10,
            FieldId::TankHeatLossCoefficient => 11,
            FieldId::TankHeightDiameterRatio => 12,
            FieldId::TankSurfaceArea => 13,
            FieldId::TankWaterMass => 14,
            FieldId::PumpFlowRate => 15,
            FieldId::WaterTempIn => 16,
        }
    }

    /// All fields, in the order of the listing.
    pub fn all() -> (ids: Vec<FieldId>)
        ensures
            ids@ == FieldId::listing(),
    {
        let ids = vec![
            FieldId::AmbientTemp,
            FieldId::LoadMassFlowRate,
            FieldId::LoadTemp,
            FieldId::PanelArea,
            FieldId::PanelEfficiency,
            FieldId::PanelHeatLossCoefficient,
            FieldId::PanelLossArea,
            FieldId::PipeOuterSurfaceArea,
            FieldId::PipeOverallHeatTransferCoefficient,
            FieldId::SolarIrradiance,
            FieldId::TankAverageTemp,
            FieldId::TankHeatLossCoefficient,
            FieldId::TankHeightDiameterRatio,
            FieldId::TankSurfaceArea,
            FieldId::TankWaterMass,
            FieldId::PumpFlowRate,
            FieldId::WaterTempIn,
        ];
        assert(ids@ =~= FieldId::listing());
        ids
    }
}

/// Every field has a name of its own: a field's name resolves to that field,
/// and a name that resolves to a field is that field's name.
pub proof fn lemma_names_identify_fields()
    ensures
        forall|id: FieldId| #[trigger] FieldId::named(id.spec_name()) == Some(id),
        forall|name: Seq<char>|
            (#[trigger] FieldId::named(name)) is Some ==> FieldId::named(name).unwrap().spec_name()
                == name,
{
    reveal_strlit("ambient_temp");
    reveal_strlit("load_mass_flow_rate");
    reveal_strlit("load_temp");
    reveal_strlit("panel_area");
    reveal_strlit("panel_efficiency");
    reveal_strlit("panel_heat_loss_coefficient");
    reveal_strlit("panel_loss_area");
    reveal_strlit("pipe_outer_surface_area");
    reveal_strlit("pipe_overall_heat_transfer_coefficient");
    reveal_strlit("solar_irradiance");
    reveal_strlit("tank_average_temp");
    reveal_strlit("tank_heat_loss_coefficient");
    reveal_strlit("tank_height_diameter_ratio");
    reveal_strlit("tank_surface_area");
    reveal_strlit("tank_water_mass");
    reveal_strlit("pump_flow_rate");
    reveal_strlit("water_temp_in");
    // Names of different lengths differ; those of one length differ in a character.
    assert("ambient_temp"@.len() == 12);
    assert("load_mass_flow_rate"@.len() == 19);
    assert("load_temp"@.len() == 9);
    assert("panel_area"@.len() == 10);
    assert("panel_efficiency"@.len() == 16);
    assert("panel_heat_loss_coefficient"@.len() == 27);
    assert("panel_loss_area"@.len() == 15);
    assert("pipe_outer_surface_area"@.len() == 23);
    assert("pipe_overall_heat_transfer_coefficient"@.len() == 38);
    assert("solar_irradiance"@.len() == 16);
    assert("tank_average_temp"@.len() == 17);
    assert("tank_heat_loss_coefficient"@.len() == 26);
    assert("tank_height_diameter_ratio"@.len() == 26);
    assert("tank_surface_area"@.len() == 17);
    assert("tank_water_mass"@.len() == 15);
    assert("pump_flow_rate"@.len() == 14);
    assert("water_temp_in"@.len() == 13);
    assert("panel_loss_area"@[0] != "tank_water_mass"@[0]);
    assert("panel_efficiency"@[0] != "solar_irradiance"@[0]);
    assert("tank_average_temp"@[5] != "tank_surface_area"@[5]);
    assert("tank_heat_loss_coefficient"@[7] != "tank_height_diameter_ratio"@[7]);
}

/// The listing holds every field once, at the place that its index gives.
pub proof fn lemma_listing_complete()
    ensures
        FieldId::listing().len() == FIELD_COUNT,
        forall|id: FieldId| #[trigger] FieldId::listing()[id.spec_index()] == id,
        forall|i: int|
            0 <= i < FIELD_COUNT ==> (#[trigger] FieldId::listing()[i]).spec_index() == i,
{
}

} // verus!
