//! Output-pipeline tests: PID report parsing, IFORCE command
//! synthesis, gain composition, framing and the active-effect table.

use tm_g29::config::{FfbConfig, OutputConfig};
use tm_g29::device::{build_iforce_packet, G29OutputReport, IforceCommand};
use tm_g29::error::TranslatorError;
use tm_g29::ffb::{ConditionType, EffectType, FfbEngine, Waveform};
use tm_g29::process_output_report;
use tm_g29::protocol::OutputTranslator;
use tm_g29::UNIT;

fn pid_report(data: Vec<u8>) -> G29OutputReport {
    G29OutputReport { report_id: 0x01, data }
}

fn xor_of(bytes: &[u8]) -> u8 {
    bytes.iter().fold(0u8, |acc, &b| acc ^ b)
}

#[test]
fn constant_ffb_round_trip() {
    // Effect block 1, type constant, magnitude +500, duration 1000 ms,
    // all gains 1.0, max force 2.5 N.
    let translator = OutputTranslator::new(OutputConfig::default());
    let mut engine = FfbEngine::new(FfbConfig::default(), 0);

    let report = pid_report(vec![0x01, 0x01, 0x00, 0xF4, 0x01, 0xE8, 0x03]);
    let effect = translator.parse_ffb_effect(report).unwrap().unwrap();
    assert_eq!(effect.id, 1);
    match effect.effect_type {
        EffectType::Constant(c) => {
            assert_eq!(c.magnitude, 500);
            assert_eq!(c.duration, 1000);
        }
        _ => panic!("wrong effect kind"),
    }

    let commands = engine.translate_effect(effect, 0).unwrap();
    assert_eq!(commands.len(), 1);
    assert_eq!(commands[0].command_id, 0x41);
    assert_eq!(commands[0].data, vec![0x01, 0xF4, 0x01, 0xE8, 0x03]);

    let frame = build_iforce_packet(&commands[0]);
    assert_eq!(frame[0], 0x07);
    assert_eq!(frame[1], 0x41);
    assert_eq!(&frame[2..7], &[0x01, 0xF4, 0x01, 0xE8, 0x03]);
    assert_eq!(xor_of(&frame), 0);
}

#[test]
fn periodic_sine_translation() {
    // Effect block 2, type sine, magnitude 100, period 50 ms, phase 180.
    let translator = OutputTranslator::new(OutputConfig::default());
    let mut engine = FfbEngine::new(FfbConfig::default(), 0);

    let report = pid_report(vec![0x02, 0x04, 0x00, 0x64, 0x00, 0x32, 0x00, 0xB4, 0x00]);
    let effect = translator.parse_ffb_effect(report).unwrap().unwrap();
    match effect.effect_type {
        EffectType::Periodic(p) => {
            assert_eq!(p.magnitude, 100);
            assert_eq!(p.period, 50);
            assert_eq!(p.phase, 180);
            assert_eq!(p.waveform, Waveform::Sine);
        }
        _ => panic!("wrong effect kind"),
    }

    let commands = engine.translate_effect(effect, 0).unwrap();
    assert_eq!(commands.len(), 1);
    assert_eq!(commands[0].command_id, 0x42);
    assert_eq!(commands[0].data, vec![0x02, 0x01, 0x64, 0x00, 0x32, 0x00, 0xB4, 0x00]);
}

#[test]
fn gain_composition_scales_magnitude() {
    // Constant +10000, constant gain 0.5, global gain 0.5, max force
    // 5.0 N: 10000 * 0.5 * 0.5 * (5.0 / 2.5) = 5000 = 0x1388.
    let mut config = FfbConfig::default();
    config.constant_gain = 5000;
    config.global_gain = 5000;
    config.max_force = 50000;
    let mut engine = FfbEngine::new(config, 0);
    let translator = OutputTranslator::new(OutputConfig::default());

    let report = pid_report(vec![0x01, 0x01, 0x00, 0x10, 0x27, 0x00, 0x00]);
    let effect = translator.parse_ffb_effect(report).unwrap().unwrap();
    let commands = engine.translate_effect(effect, 0).unwrap();
    assert_eq!(commands[0].data[1], 0x88);
    assert_eq!(commands[0].data[2], 0x13);
}

#[test]
fn negative_magnitude_encodes_twos_complement() {
    let translator = OutputTranslator::new(OutputConfig::default());
    let mut engine = FfbEngine::new(FfbConfig::default(), 0);
    // Magnitude -500 = 0xFE0C little-endian 0C FE.
    let report = pid_report(vec![0x03, 0x01, 0x00, 0x0C, 0xFE, 0x00, 0x00]);
    let effect = translator.parse_ffb_effect(report).unwrap().unwrap();
    let commands = engine.translate_effect(effect, 0).unwrap();
    assert_eq!(commands[0].data, vec![0x03, 0x0C, 0xFE, 0x00, 0x00]);
}

#[test]
fn condition_effects_map_codes_and_gains() {
    let translator = OutputTranslator::new(OutputConfig::default());
    let mut engine = FfbEngine::new(FfbConfig::default(), 0);

    // Spring with coefficients +100 / -100 (0xFF9C).
    let report = pid_report(vec![0x04, 0x08, 0x00, 0x64, 0x00, 0x9C, 0xFF]);
    let effect = translator.parse_ffb_effect(report).unwrap().unwrap();
    match effect.effect_type {
        EffectType::Condition(c) => {
            assert_eq!(c.positive_coefficient, 100);
            assert_eq!(c.negative_coefficient, -100);
            assert_eq!(c.condition_type, ConditionType::Spring);
        }
        _ => panic!("wrong effect kind"),
    }
    let commands = engine.translate_effect(effect, 0).unwrap();
    assert_eq!(commands[0].command_id, 0x43);
    assert_eq!(commands[0].data, vec![0x04, 0x01, 0x64, 0x00, 0x9C, 0xFF]);

    // Damper, inertia and friction codes.
    for (code, cond_id) in [(0x09u8, 0x02u8), (0x0A, 0x03), (0x0B, 0x04)] {
        let report = pid_report(vec![0x05, code, 0x00, 0x01, 0x00, 0x02, 0x00]);
        let effect = translator.parse_ffb_effect(report).unwrap().unwrap();
        let commands = engine.translate_effect(effect, 0).unwrap();
        assert_eq!(commands[0].data[1], cond_id, "type code {code:#x}");
    }
}

#[test]
fn every_waveform_maps_to_its_iforce_id() {
    let translator = OutputTranslator::new(OutputConfig::default());
    let mut engine = FfbEngine::new(FfbConfig::default(), 0);
    for (code, wf_id) in [(0x03u8, 0x02u8), (0x04, 0x01), (0x05, 0x03), (0x06, 0x04), (0x07, 0x05)]
    {
        let report = pid_report(vec![0x06, code, 0x00, 0x64, 0x00, 0x32, 0x00, 0x00, 0x00]);
        let effect = translator.parse_ffb_effect(report).unwrap().unwrap();
        let commands = engine.translate_effect(effect, 0).unwrap();
        assert_eq!(commands[0].command_id, 0x42);
        assert_eq!(commands[0].data[1], wf_id, "type code {code:#x}");
    }
}

#[test]
fn non_effect_reports_give_none() {
    let translator = OutputTranslator::new(OutputConfig::default());
    // Wrong report id.
    let report = G29OutputReport { report_id: 0x02, data: vec![0x01, 0x01, 0x00, 0, 0, 0, 0] };
    assert!(translator.parse_ffb_effect(report).unwrap().is_none());
    // Empty payload.
    assert!(translator.parse_ffb_effect(pid_report(vec![])).unwrap().is_none());
    // Effect block index out of range: 0 and 41.
    assert!(translator.parse_ffb_effect(pid_report(vec![0x00, 0x01])).unwrap().is_none());
    assert!(translator.parse_ffb_effect(pid_report(vec![41, 0x01])).unwrap().is_none());
    // Index 40 is still accepted.
    let report = pid_report(vec![40, 0x01, 0x00, 0x01, 0x00, 0x00, 0x00]);
    assert_eq!(translator.parse_ffb_effect(report).unwrap().unwrap().id, 40);
}

#[test]
fn short_reports_are_invalid() {
    let translator = OutputTranslator::new(OutputConfig::default());
    // No type code at all.
    let r = translator.parse_ffb_effect(pid_report(vec![0x01]));
    assert!(matches!(r, Err(TranslatorError::InvalidReport { .. })));
    // Constant with three parameter bytes instead of four.
    let r = translator.parse_ffb_effect(pid_report(vec![0x01, 0x01, 0x00, 0xF4, 0x01, 0xE8]));
    assert!(matches!(r, Err(TranslatorError::InvalidReport { .. })));
    // Periodic with five parameter bytes instead of six.
    let r = translator.parse_ffb_effect(pid_report(vec![0x02, 0x04, 0x00, 1, 0, 2, 0, 3]));
    assert!(matches!(r, Err(TranslatorError::InvalidReport { .. })));
    // Condition with three parameter bytes instead of four.
    let r = translator.parse_ffb_effect(pid_report(vec![0x03, 0x0B, 0x00, 1, 0, 2]));
    assert!(matches!(r, Err(TranslatorError::InvalidReport { .. })));
}

#[test]
fn unsupported_effect_type_is_ffb_error() {
    let translator = OutputTranslator::new(OutputConfig::default());
    for code in [0x02u8, 0x0C, 0x20, 0xFF] {
        let r = translator.parse_ffb_effect(pid_report(vec![0x01, code, 0, 0, 0, 0, 0, 0, 0]));
        assert!(matches!(r, Err(TranslatorError::FfbError { .. })), "type code {code:#x}");
    }
}

#[test]
fn disabled_ffb_emits_nothing_and_stores_nothing() {
    let mut config = FfbConfig::default();
    config.enabled = false;
    let mut engine = FfbEngine::new(config, 0);
    let translator = OutputTranslator::new(OutputConfig::default());
    let report = pid_report(vec![0x01, 0x01, 0x00, 0xF4, 0x01, 0xE8, 0x03]);
    let effect = translator.parse_ffb_effect(report).unwrap().unwrap();
    let commands = engine.translate_effect(effect, 0).unwrap();
    assert!(commands.is_empty());
    assert!(engine.active_effects.iter().all(|slot| slot.is_none()));
}

#[test]
fn translate_effect_stores_active_effect() {
    let mut engine = FfbEngine::new(FfbConfig::default(), 0);
    let translator = OutputTranslator::new(OutputConfig::default());
    let report = pid_report(vec![0x07, 0x01, 0x00, 0xF4, 0x01, 0xE8, 0x03]);
    let effect = translator.parse_ffb_effect(report).unwrap().unwrap();
    engine.translate_effect(effect, 123).unwrap();
    let stored = engine.active_effects[7].as_ref().expect("slot filled");
    assert_eq!(stored.start_ms, 123);
    assert!(stored.enabled);
    assert_eq!(stored.effect.id, 7);
}

#[test]
fn expired_constant_effects_are_swept() {
    let mut engine = FfbEngine::new(FfbConfig::default(), 0);
    let translator = OutputTranslator::new(OutputConfig::default());

    // A constant effect with a 1000 ms duration, and one that never expires.
    let finite = pid_report(vec![0x01, 0x01, 0x00, 0xF4, 0x01, 0xE8, 0x03]);
    let infinite = pid_report(vec![0x02, 0x01, 0x00, 0xF4, 0x01, 0x00, 0x00]);
    let finite = translator.parse_ffb_effect(finite).unwrap().unwrap();
    let infinite = translator.parse_ffb_effect(infinite).unwrap().unwrap();
    engine.translate_effect(finite, 0).unwrap();
    engine.translate_effect(infinite, 0).unwrap();

    // Before expiry both stay.
    let commands = engine.update_active_effects(500).unwrap();
    assert!(commands.is_empty());
    assert!(engine.active_effects[1].is_some());
    assert!(engine.active_effects[2].is_some());

    // At 2000 ms the finite effect has expired, the infinite one stays.
    engine.update_active_effects(2000).unwrap();
    assert!(engine.active_effects[1].is_none());
    assert!(engine.active_effects[2].is_some());
    assert_eq!(engine.last_update_ms, 2000);
}

#[test]
fn update_is_rate_limited() {
    let mut config = FfbConfig::default();
    config.update_rate_hz = 100;  // 10 ms interval
    let mut engine = FfbEngine::new(config, 0);
    engine.update_active_effects(5).unwrap();
    assert_eq!(engine.last_update_ms, 0, "update before the interval must not run");
    engine.update_active_effects(10).unwrap();
    assert_eq!(engine.last_update_ms, 10);
}

#[test]
fn framing_closes_checksum_for_various_payloads() {
    for data in [vec![], vec![0x55], vec![0x01, 0xF4, 0x01, 0xE8, 0x03], vec![0xFF; 40]] {
        let cmd = IforceCommand { command_id: 0x42, data: data.clone() };
        let frame = build_iforce_packet(&cmd);
        assert_eq!(frame.len(), data.len() + 3);
        assert_eq!(frame[0] as usize, data.len() + 2);
        assert_eq!(xor_of(&frame), 0);
    }
}

#[test]
fn output_pump_step_translates_accepted_reports() {
    let translator = OutputTranslator::new(OutputConfig::default());
    let mut engine = FfbEngine::new(FfbConfig::default(), 0);

    // An accepted constant-force report produces one command.
    let report = pid_report(vec![0x01, 0x01, 0x00, 0xF4, 0x01, 0xE8, 0x03]);
    let commands = process_output_report(&translator, &mut engine, report, 42).unwrap();
    assert_eq!(commands.len(), 1);
    assert_eq!(commands[0].command_id, 0x41);

    // A non-effect report produces none and changes nothing.
    let other = G29OutputReport { report_id: 0x03, data: vec![1, 2, 3] };
    let commands = process_output_report(&translator, &mut engine, other, 43).unwrap();
    assert!(commands.is_empty());
    assert!(engine.active_effects[1].is_some());
}
