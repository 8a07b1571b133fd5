//! Configuration defaults and error constructors.

use tm_g29::config::{Config, CurveType, FfbConfig, G29Config, InputConfig, ThrustmasterConfig};
use tm_g29::error::TranslatorError;
use tm_g29::UNIT;

#[test]
fn default_identities_match_the_hardware() {
    let config = Config::default();
    assert_eq!(config.thrustmaster_config.vid, 0x044F);
    assert_eq!(config.thrustmaster_config.pid, 0x0004);
    assert!(config.thrustmaster_config.exclusive_access);
    assert_eq!(config.g29_config.vid, 0x046D);
    assert_eq!(config.g29_config.pid, 0xC24F);
    assert_eq!(config.g29_config.product_string, "G29 Driving Force Racing Wheel");
    assert_eq!(config.g29_config.manufacturer_string, "Logitech");
}

#[test]
fn default_input_shaping() {
    let input = InputConfig::default();
    assert_eq!(input.steering_range, 900);
    assert_eq!(input.steering_deadzone, 200);
    assert!(matches!(input.pedal_curves.throttle_curve, CurveType::Linear));
    assert_eq!(input.button_mapping.len(), 14);
    for (i, &(physical, virt)) in input.button_mapping.iter().enumerate() {
        assert_eq!(physical as usize, i);
        assert_eq!(virt as usize, i);
    }
    assert_eq!(input.axis_scaling.steering_multiplier, UNIT);
}

#[test]
fn default_ffb_knobs() {
    let ffb = FfbConfig::default();
    assert!(ffb.enabled);
    assert_eq!(ffb.global_gain, UNIT);
    assert_eq!(ffb.autocenter_gain, 2000);
    assert_eq!(ffb.max_force, 25000);
    assert_eq!(ffb.update_rate_hz, 1000);
}

#[test]
fn default_serials() {
    assert!(ThrustmasterConfig::default().serial_number.is_none());
    assert_eq!(G29Config::default().serial_number, "TM2G29001");
}

#[test]
fn error_constructors_carry_reasons() {
    let e = TranslatorError::invalid_report("bad".to_string());
    assert!(matches!(e, TranslatorError::InvalidReport { reason } if reason == "bad"));
    let e = TranslatorError::ffb_error("f".to_string());
    assert!(matches!(e, TranslatorError::FfbError { .. }));
    let e = TranslatorError::config_error("c".to_string());
    assert!(matches!(e, TranslatorError::ConfigError { .. }));
    let e = TranslatorError::virtual_device_error("v".to_string());
    assert!(matches!(e, TranslatorError::VirtualDeviceError { .. }));
    let e = TranslatorError::calibration_error("k".to_string());
    assert!(matches!(e, TranslatorError::CalibrationError { .. }));
    let e = TranslatorError::protocol_error("p".to_string());
    assert!(matches!(e, TranslatorError::ProtocolError { .. }));
}
