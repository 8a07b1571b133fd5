//! Input-pipeline tests: steering deadzone and saturation, pedal
//! curves, button remapping and D-pad encoding.

use tm_g29::config::{CurveType, InputConfig};
use tm_g29::device::ThrustmasterInputReport;
use tm_g29::protocol::InputTranslator;
use tm_g29::UNIT;

fn translator_with_deadzone(deadzone: u32) -> InputTranslator {
    let mut config = InputConfig::default();
    config.steering_deadzone = deadzone;
    InputTranslator::new(config)
}

fn report(steering: i16, throttle: u8, brake: u8, clutch: u8, buttons: u16, dpad: u8)
    -> ThrustmasterInputReport
{
    ThrustmasterInputReport { steering, throttle, brake, clutch, buttons, dpad }
}

#[test]
fn centre_with_deadzone_maps_to_8000() {
    // Deadzone 0.02, multiplier 1.0, raw steering 0.
    let mut t = translator_with_deadzone(200);
    let out = t.translate(report(0, 0, 0, 0, 0, 8));
    assert_eq!(out.steering, 0x8000);
}

#[test]
fn full_deflection_saturates() {
    // Deadzone 0.02, multiplier 1.0.
    let mut t = translator_with_deadzone(200);
    let right = t.translate(report(32767, 0, 0, 0, 0, 8));
    assert_eq!(right.steering, 0xFFFF);
    let left = t.translate(report(-32768, 0, 0, 0, 0, 8));
    assert_eq!(left.steering, 0x0000);
}

#[test]
fn small_input_inside_deadzone_centres() {
    // |r / 32767| < 0.02 for every |r| <= 655.
    let mut t = translator_with_deadzone(200);
    for raw in [-655i16, -100, -1, 1, 100, 655] {
        let out = t.translate(report(raw, 0, 0, 0, 0, 8));
        assert_eq!(out.steering, 0x8000, "raw {raw}");
    }
}

#[test]
fn deadzone_of_one_collapses_everything_to_centre() {
    let mut t = translator_with_deadzone(UNIT);
    for raw in [-32768i16, -1, 0, 1, 32767] {
        let out = t.translate(report(raw, 0, 0, 0, 0, 8));
        assert_eq!(out.steering, 0x8000, "raw {raw}");
    }
}

#[test]
fn multiplier_pushes_past_full_and_clamps() {
    let mut config = InputConfig::default();
    config.steering_deadzone = 0;
    config.axis_scaling.steering_multiplier = 3 * UNIT;
    let mut t = InputTranslator::new(config);
    let out = t.translate(report(16000, 0, 0, 0, 0, 8));
    assert_eq!(out.steering, 0xFFFF);
    let out = t.translate(report(-16000, 0, 0, 0, 0, 8));
    assert_eq!(out.steering, 0x0000);
}

#[test]
fn steering_is_monotone_in_the_raw_input() {
    for deadzone in [0u32, 200, 5000, 9999] {
        let mut t = translator_with_deadzone(deadzone);
        let mut prev = 0u16;
        for (i, raw) in [-32768i16, -32767, -16384, -656, -1, 0, 1, 655, 16384, 32767]
            .into_iter()
            .enumerate()
        {
            let out = t.translate(report(raw, 0, 0, 0, 0, 8));
            if i > 0 {
                assert!(out.steering >= prev, "deadzone {deadzone}, raw {raw}");
            }
            prev = out.steering;
        }
    }
}

#[test]
fn pedal_curve_squared_midpoint() {
    // Throttle curve Squared, raw 128: (128/255)^2 * 1023 = 258 (+-1).
    let t = InputTranslator::new(InputConfig::default());
    let out = t.apply_pedal_curve(128, &CurveType::Squared);
    assert!(out == 258 || out == 257, "got {out}");
    assert_eq!(out, 258);
}

#[test]
fn pedal_curve_cubed_full_press() {
    // Brake curve Cubed, raw 255 -> 1023.
    let t = InputTranslator::new(InputConfig::default());
    assert_eq!(t.apply_pedal_curve(255, &CurveType::Cubed), 1023);
}

#[test]
fn pedal_curves_endpoints() {
    let t = InputTranslator::new(InputConfig::default());
    for curve in [CurveType::Linear, CurveType::Squared, CurveType::Cubed] {
        assert_eq!(t.apply_pedal_curve(0, &curve), 0);
        assert_eq!(t.apply_pedal_curve(255, &curve), 1023);
    }
}

#[test]
fn pedal_curves_monotone_and_in_range() {
    let t = InputTranslator::new(InputConfig::default());
    for curve in [CurveType::Linear, CurveType::Squared, CurveType::Cubed] {
        let mut prev = 0u32;
        for raw in 0..=255u8 {
            let out = t.apply_pedal_curve(raw, &curve);
            assert!(out <= 1023);
            assert!(out >= prev, "curve not monotone at {raw}");
            prev = out;
        }
    }
}

#[test]
fn pedal_curve_linear_is_identity_scale() {
    let t = InputTranslator::new(InputConfig::default());
    // round(128 / 255 * 1023) = round(513.6) = 514
    assert_eq!(t.apply_pedal_curve(128, &CurveType::Linear), 514);
}

#[test]
fn pedal_custom_curve_interpolates() {
    let t = InputTranslator::new(InputConfig::default());
    // Three-point table 0, 0.5, 1.0: the curve is linear again.
    let curve = CurveType::Custom(vec![0, 5000, 10000]);
    assert_eq!(t.apply_pedal_curve(0, &curve), 0);
    assert_eq!(t.apply_pedal_curve(255, &curve), 1023);
    let mid = t.apply_pedal_curve(128, &curve);
    assert!(513 <= mid && mid <= 515, "got {mid}");
    // A one-point table holds its value everywhere.
    let flat = CurveType::Custom(vec![5000]);
    let half = t.apply_pedal_curve(77, &flat);
    assert!(511 <= half && half <= 512, "got {half}");
}

#[test]
fn button_map_round_trip() {
    // The default map is one-to-one on the first 14 buttons.
    let mut t = InputTranslator::new(InputConfig::default());
    let out = t.translate(report(0, 0, 0, 0, 0b0000_0000_0000_0101, 8));
    assert_eq!(out.buttons & 0xFFFFFF, 0b101);

    // A remap: physical 0 -> virtual 5, physical 3 -> virtual 1.
    let mut config = InputConfig::default();
    config.button_mapping = vec![(0, 5), (3, 1)];
    let mut t = InputTranslator::new(config);
    let out = t.translate(report(0, 0, 0, 0, 0b1001, 8));
    assert_eq!(out.buttons & 0xFFFFFF, (1 << 5) | (1 << 1));

    // An unmapped physical bit is dropped; no unmapped virtual bit appears.
    let mut config = InputConfig::default();
    config.button_mapping = vec![(2, 7)];
    let mut t = InputTranslator::new(config);
    let out = t.translate(report(0, 0, 0, 0, 0b1011, 8));
    assert_eq!(out.buttons & 0xFFFFFF, 0);
}

#[test]
fn dpad_encodes_in_top_byte() {
    let mut t = InputTranslator::new(InputConfig::default());
    for dpad in 0..=7u8 {
        let out = t.translate(report(0, 0, 0, 0, 0, dpad));
        assert_eq!(out.buttons >> 24, dpad as u32);
    }
    // Out-of-range D-pad values clamp to centre.
    let out = t.translate(report(0, 0, 0, 0, 0, 15));
    assert_eq!(out.buttons >> 24, 8);
}

#[test]
fn translate_fills_report_shape() {
    let mut t = InputTranslator::new(InputConfig::default());
    let out = t.translate(report(0, 255, 128, 0, 0, 8));
    assert_eq!(out.report_id, 0x01);
    assert_eq!(out.throttle, 1023);
    assert_eq!(out.brake, 514);
    assert_eq!(out.clutch, 0);
    assert_eq!(out.unused, [0u8; 4]);
    assert_eq!(t.last_steering, out.steering);
}
