//! Tests of the parameter store: defaults, round trips, names, and the
//! read-modify-write path.

use synthy::params::{Parameter, Parameters};

#[test]
fn defaults_are_documented_values() {
    let p = Parameters::new();
    assert_eq!(f32::from_bits(p.modulation), 1.0);
    assert_eq!(f32::from_bits(p.volume), 0.5);
    assert_eq!(f32::from_bits(p.slider_value), 10.0);
    let d = Parameters::default();
    assert_eq!(d.modulation, p.modulation);
    assert_eq!(d.volume, p.volume);
    assert_eq!(d.slider_value, p.slider_value);
}

#[test]
fn set_get_round_trip_all_indices() {
    let mut p = Parameters::new();
    for index in 0..3i32 {
        for value in [0.0f32, 0.25, 1.0, 99.5, -3.75, f32::MAX] {
            p.set_parameter(index, value.to_bits());
            assert_eq!(f32::from_bits(p.get_parameter(index)), value);
        }
    }
}

#[test]
fn set_at_one_index_leaves_others() {
    let mut p = Parameters::new();
    let before_volume = p.get_parameter(1);
    let before_slider = p.get_parameter(2);
    p.set_parameter(0, 0.75f32.to_bits());
    assert_eq!(p.get_parameter(1), before_volume);
    assert_eq!(p.get_parameter(2), before_slider);
}

#[test]
fn unrecognized_index_reads_zero_and_ignores_writes() {
    let mut p = Parameters::new();
    assert_eq!(p.get_parameter(3), 0);
    assert_eq!(p.get_parameter(-1), 0);
    let before = (p.modulation, p.volume, p.slider_value);
    p.set_parameter(3, 0.9f32.to_bits());
    p.set_parameter(-1, 0.9f32.to_bits());
    assert_eq!((p.modulation, p.volume, p.slider_value), before);
}

#[test]
fn parameter_names() {
    let p = Parameters::new();
    assert_eq!(p.get_parameter_name(0), "modulation");
    assert_eq!(p.get_parameter_name(1), "counter");
    assert_eq!(p.get_parameter_name(2), "slider_value");
    assert_eq!(p.get_parameter_name(3), "unknown");
    assert_eq!(p.get_parameter_name(-7), "unknown");
}

#[test]
fn parameter_index_round_trip() {
    for (param, index) in [
        (Parameter::Modulation, 0),
        (Parameter::Counter, 1),
        (Parameter::SliderValue, 2),
    ] {
        assert_eq!(param.index(), index);
        assert_eq!(Parameter::from_index(index), Some(param));
    }
    assert_eq!(Parameter::from_index(3), None);
    assert_eq!(Parameter::from_index(-1), None);
}

#[test]
fn modify_parameter_applies_function() {
    let mut p = Parameters::new();
    p.modify_parameter(1, |bits| (f32::from_bits(bits) - 0.1).max(0.0).to_bits());
    assert!((f32::from_bits(p.get_parameter(1)) - 0.4).abs() < 1e-6);
    p.modify_parameter(0, |bits| (f32::from_bits(bits) + 0.5).to_bits());
    assert_eq!(f32::from_bits(p.get_parameter(0)), 1.5);
}

#[test]
fn modify_parameter_reaches_every_valid_knob() {
    let mut p = Parameters::new();
    p.modify_parameter(2, |bits| (f32::from_bits(bits) + 1.0).to_bits());
    assert_eq!(f32::from_bits(p.get_parameter(2)), 11.0);
    assert_eq!(f32::from_bits(p.get_parameter(0)), 1.0);
    assert_eq!(f32::from_bits(p.get_parameter(1)), 0.5);
}

#[test]
fn modify_parameter_ignores_unknown_index() {
    let mut p = Parameters::new();
    let before = (p.modulation, p.volume, p.slider_value);
    p.modify_parameter(9, |bits| bits.wrapping_add(1));
    p.modify_parameter(-2, |bits| bits.wrapping_add(1));
    assert_eq!((p.modulation, p.volume, p.slider_value), before);
}
