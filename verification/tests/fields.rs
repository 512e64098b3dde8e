use solarsim::scalar::Scalar;
use solarsim::simulation::{
    FieldError, FieldId, SimulationConfig, SimulationField, SimulationFieldKind,
};

fn s(x: f32) -> Scalar {
    Scalar::from_bits(x.to_bits())
}

fn f(x: Scalar) -> f32 {
    f32::from_bits(x.to_bits())
}

fn parts(field: SimulationField) -> (f32, f32, f32, SimulationFieldKind) {
    (f(field.value()), f(field.min()), f(field.max()), field.kind())
}

#[test]
fn new_clamps_the_value_into_the_range() {
    let below = SimulationField::new(s(0.0), s(4.0), s(19.0), SimulationFieldKind::Slider);
    assert_eq!(parts(below), (4.0, 4.0, 19.0, SimulationFieldKind::Slider));
    let above = SimulationField::new(s(70.0), s(10.0), s(60.0), SimulationFieldKind::ReadOnly);
    assert_eq!(parts(above), (60.0, 10.0, 60.0, SimulationFieldKind::ReadOnly));
    let inside = SimulationField::new(s(25.0), s(-88.0), s(58.0), SimulationFieldKind::Slider);
    assert_eq!(parts(inside), (25.0, -88.0, 58.0, SimulationFieldKind::Slider));
}

#[test]
fn new_agrees_with_the_clamp_of_the_numbers() {
    let values = [
        f32::NEG_INFINITY,
        -1.0e30,
        -88.0,
        -0.0,
        0.0,
        3.9999998,
        4.0,
        4.0000005,
        11.5,
        19.0,
        19.000002,
        1.0e30,
        f32::INFINITY,
    ];
    for v in values {
        let field = SimulationField::new(s(v), s(4.0), s(19.0), SimulationFieldKind::Slider);
        assert_eq!(field.value().to_bits(), v.clamp(4.0, 19.0).to_bits(), "{}", v);
    }
}

#[test]
fn new_keeps_a_value_that_is_no_number() {
    let field = SimulationField::new(s(f32::NAN), s(0.0), s(1.0), SimulationFieldKind::Slider);
    assert!(f(field.value()).is_nan());
}

#[test]
fn new_percentile_is_an_editable_fraction() {
    let field = SimulationField::new_percentile(s(0.25));
    assert_eq!(parts(field), (0.25, 0.0, 1.0, SimulationFieldKind::Slider));
    // The value is stored as given.
    let field = SimulationField::new_percentile(s(1.5));
    assert_eq!(parts(field), (1.5, 0.0, 1.0, SimulationFieldKind::Slider));
}

#[test]
fn default_field_is_read_only_zero() {
    let field = SimulationField::default();
    assert_eq!(parts(field), (0.0, 0.0, 1.0, SimulationFieldKind::ReadOnly));
    assert_eq!(SimulationFieldKind::default(), SimulationFieldKind::ReadOnly);
}

#[test]
fn set_max_lowers_a_value_above_the_new_bound() {
    let mut field = SimulationField::new(s(100.0), s(0.0), s(2000.0), SimulationFieldKind::Slider);
    field.set_max(s(50.0));
    assert_eq!(parts(field), (50.0, 0.0, 50.0, SimulationFieldKind::Slider));
    assert_eq!(field.value(), field.max());
}

#[test]
fn set_max_keeps_a_value_at_or_below_the_new_bound() {
    let mut field = SimulationField::new(s(100.0), s(0.0), s(2000.0), SimulationFieldKind::Slider);
    field.set_max(s(250.0));
    assert_eq!(parts(field), (100.0, 0.0, 250.0, SimulationFieldKind::Slider));
    field.set_max(s(100.0));
    assert_eq!(parts(field), (100.0, 0.0, 100.0, SimulationFieldKind::Slider));
    // The bound never raises the value.
    field.set_max(s(2000.0));
    assert_eq!(parts(field), (100.0, 0.0, 2000.0, SimulationFieldKind::Slider));
}

#[test]
fn set_max_with_no_number_lowers_nothing() {
    let mut field = SimulationField::new(s(100.0), s(0.0), s(2000.0), SimulationFieldKind::Slider);
    field.set_max(s(f32::NAN));
    assert_eq!(f(field.value()), 100.0);
    assert!(f(field.max()).is_nan());
}

#[test]
fn assign_clamps_and_reports_both_values() {
    let mut field = SimulationField::new(s(2.0), s(1.0), s(3.0), SimulationFieldKind::Slider);
    assert_eq!(field.assign(s(2.5)), (s(2.0), s(2.5)));
    assert_eq!(field.assign(s(9.0)), (s(2.5), s(3.0)));
    assert_eq!(field.assign(s(-9.0)), (s(3.0), s(1.0)));
    assert_eq!(parts(field), (1.0, 1.0, 3.0, SimulationFieldKind::Slider));
}

#[test]
fn set_value_stores_without_clamping() {
    let mut field = SimulationField::new(s(5.0), s(1.0), s(20.0), SimulationFieldKind::Slider);
    field.set_value(s(0.0));
    assert_eq!(parts(field), (0.0, 1.0, 20.0, SimulationFieldKind::Slider));
}

#[test]
fn defaults_are_the_documented_numbers() {
    let read_only = SimulationFieldKind::ReadOnly;
    let slider = SimulationFieldKind::Slider;
    let cfg = SimulationConfig::default();
    assert_eq!(parts(cfg.ambient_temp), (25.0, -88.0, 58.0, slider));
    assert_eq!(parts(cfg.load_mass_flow_rate), (0.1, 0.0, 10.0, slider));
    assert_eq!(parts(cfg.load_temp), (20.0, 10.0, 60.0, slider));
    assert_eq!(parts(cfg.panel_area), (2.0, 1.0, 3.0, slider));
    assert_eq!(parts(cfg.panel_efficiency), (0.25, 0.0, 1.0, slider));
    assert_eq!(parts(cfg.panel_heat_loss_coefficient), (4.0, 4.0, 19.0, slider));
    assert_eq!(parts(cfg.panel_loss_area), (0.1, 0.0, 3.0, slider));
    assert_eq!(parts(cfg.pipe_outer_surface_area), (3.0, 0.5, 12.0, slider));
    assert_eq!(
        parts(cfg.pipe_overall_heat_transfer_coefficient),
        (0.03, 0.02, 0.07, slider)
    );
    assert_eq!(parts(cfg.solar_irradiance), (800.0, 0.0, 1365.4, slider));
    assert_eq!(parts(cfg.tank_average_temp), (25.0, 10.0, 60.0, read_only));
    assert_eq!(parts(cfg.tank_heat_loss_coefficient), (3.231, 3.231, 20.0, slider));
    assert_eq!(parts(cfg.tank_height_diameter_ratio), (2.0, 1.0, 3.0, slider));
    assert_eq!(parts(cfg.tank_surface_area), (5.0, 1.0, 20.0, slider));
    assert_eq!(parts(cfg.tank_water_mass), (100.0, 0.0, 2000.0, slider));
    assert_eq!(parts(cfg.pump_flow_rate), (0.05, 0.05, 0.5, slider));
    assert_eq!(parts(cfg.water_temp_in), (25.0, 10.0, 60.0, read_only));
}

#[test]
fn names_resolve_to_their_fields_and_back() {
    let names = [
        "ambient_temp",
        "load_mass_flow_rate",
        "load_temp",
        "panel_area",
        "panel_efficiency",
        "panel_heat_loss_coefficient",
        "panel_loss_area",
        "pipe_outer_surface_area",
        "pipe_overall_heat_transfer_coefficient",
        "solar_irradiance",
        "tank_average_temp",
        "tank_heat_loss_coefficient",
        "tank_height_diameter_ratio",
        "tank_surface_area",
        "tank_water_mass",
        "pump_flow_rate",
        "water_temp_in",
    ];
    let ids = FieldId::all();
    assert_eq!(ids.len(), names.len());
    for (i, id) in ids.iter().enumerate() {
        assert_eq!(id.name(), names[i]);
        assert_eq!(id.index(), i);
        assert_eq!(FieldId::from_name(names[i]), Some(*id));
    }
}

#[test]
fn names_are_matched_exactly() {
    assert_eq!(FieldId::from_name("not_a_field"), None);
    assert_eq!(FieldId::from_name(""), None);
    assert_eq!(FieldId::from_name("Ambient_temp"), None);
    assert_eq!(FieldId::from_name("ambient_temp "), None);
    assert_eq!(FieldId::from_name("ambient temp"), None);
    assert_eq!(FieldId::from_name("tank_volume"), None);
}

#[test]
fn get_returns_the_snapshot_of_the_named_field() {
    let cfg = SimulationConfig::default();
    let field = cfg.get("solar_irradiance").unwrap();
    assert_eq!(parts(field), (800.0, 0.0, 1365.4, SimulationFieldKind::Slider));
    assert_eq!(cfg.get("tank_average_temp").unwrap().kind(), SimulationFieldKind::ReadOnly);
    assert_eq!(cfg.get("not_a_field"), None);
}

#[test]
fn set_clamps_whatever_is_written() {
    let values = [
        f32::NEG_INFINITY,
        f32::MIN,
        -1.0e9,
        -88.5,
        -88.0,
        -0.0,
        0.0,
        57.99,
        58.0,
        58.01,
        1.0e9,
        f32::MAX,
        f32::INFINITY,
    ];
    for v in values {
        let mut cfg = SimulationConfig::default();
        let (old, new) = cfg.set("ambient_temp", s(v)).unwrap();
        assert_eq!(f(old), 25.0);
        assert_eq!(new.to_bits(), v.clamp(-88.0, 58.0).to_bits());
        let stored = f(cfg.ambient_temp.value());
        assert!(-88.0 <= stored && stored <= 58.0, "{}", v);
        assert_eq!(cfg.ambient_temp.value(), new);
    }
}

#[test]
fn set_touches_no_other_field() {
    let mut cfg = SimulationConfig::default();
    assert_eq!(cfg.set("panel_area", s(2.5)), Ok((s(2.0), s(2.5))));
    let mut expected = SimulationConfig::default();
    expected.panel_area.set_value(s(2.5));
    assert_eq!(cfg, expected);
}

#[test]
fn set_writes_read_only_fields_too() {
    let mut cfg = SimulationConfig::default();
    assert_eq!(cfg.set("tank_average_temp", s(100.0)), Ok((s(25.0), s(60.0))));
    assert_eq!(f(cfg.tank_average_temp.value()), 60.0);
}

#[test]
fn set_on_an_unknown_name_changes_nothing() {
    let mut cfg = SimulationConfig::default();
    assert_eq!(cfg.set("not_a_field", s(1.0)), Err(FieldError::UnknownField));
    assert_eq!(cfg, SimulationConfig::default());
}

#[test]
fn set_field_writes_by_identifier() {
    let mut cfg = SimulationConfig::default();
    assert_eq!(cfg.set_field(FieldId::PumpFlowRate, s(0.0)), (s(0.05), s(0.05)));
    assert_eq!(cfg.set_field(FieldId::PumpFlowRate, s(0.3)), (s(0.05), s(0.3)));
    assert_eq!(f(cfg.field(FieldId::PumpFlowRate).value()), 0.3);
    assert_eq!(f(cfg.pump_flow_rate.value()), 0.3);
}

#[test]
fn replace_field_puts_the_field_in_its_place() {
    let mut cfg = SimulationConfig::default();
    let field = SimulationField::new_percentile(s(0.5));
    cfg.replace_field(FieldId::LoadTemp, field);
    assert_eq!(cfg.load_temp, field);
    let mut expected = SimulationConfig::default();
    expected.load_temp = field;
    assert_eq!(cfg, expected);
}

#[test]
fn fields_enumerates_every_field_in_order() {
    let mut cfg = SimulationConfig::default();
    cfg.set("load_temp", s(33.0)).unwrap();
    let entries = cfg.fields();
    assert_eq!(entries.len(), 17);
    for (i, (id, field)) in entries.iter().enumerate() {
        assert_eq!(id.index(), i);
        assert_eq!(*field, cfg.field(*id));
        assert_eq!(Some(*field), cfg.get(id.name()));
    }
    assert_eq!(entries[2].0, FieldId::LoadTemp);
    assert_eq!(f(entries[2].1.value()), 33.0);
    let read_only: Vec<&str> = entries
        .iter()
        .filter(|(_, field)| field.kind() == SimulationFieldKind::ReadOnly)
        .map(|(id, _)| id.name())
        .collect();
    assert_eq!(read_only, vec!["tank_average_temp", "water_temp_in"]);
}
