use lyrebird_renderer::analog::{clamp_button_value, normalize_axis_value};

fn axis(x: f32) -> f32 {
    f32::from_bits(normalize_axis_value(x.to_bits()))
}

fn button(x: f32) -> f32 {
    f32::from_bits(clamp_button_value(x.to_bits()))
}

#[test]
fn axis_nan_becomes_zero() {
    assert_eq!(axis(f32::NAN), 0.0);
}

#[test]
fn axis_infinities_become_zero() {
    assert_eq!(axis(f32::INFINITY), 0.0);
    assert_eq!(axis(f32::NEG_INFINITY), 0.0);
}

#[test]
fn axis_out_of_range_is_clamped() {
    assert_eq!(axis(1.5), 1.0);
    assert_eq!(axis(-2.0), -1.0);
    assert_eq!(axis(f32::MAX), 1.0);
}

#[test]
fn axis_in_range_is_kept() {
    assert_eq!(axis(0.3), 0.3);
    assert_eq!(axis(-0.75), -0.75);
    assert_eq!(axis(1.0), 1.0);
    assert_eq!(axis(-1.0), -1.0);
    assert_eq!(axis(0.0), 0.0);
}

#[test]
fn button_value_is_clamped_to_unit() {
    assert_eq!(button(1.5), 1.0);
    assert_eq!(button(-0.5), 0.0);
    assert_eq!(button(0.25), 0.25);
    assert_eq!(button(f32::INFINITY), 1.0);
    assert_eq!(button(f32::NEG_INFINITY), 0.0);
    assert!(button(f32::NAN).is_nan());
}

#[test]
fn button_value_matches_std_clamp() {
    for x in [-3.0f32, -1.0, -0.0, 0.0, 0.5, 1.0, 1.0001, 7.0, f32::MIN_POSITIVE, -f32::MIN_POSITIVE] {
        assert_eq!(button(x).to_bits(), x.clamp(0.0, 1.0).to_bits());
    }
}
