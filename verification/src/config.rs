//! Configuration model: immutable, passed by reference into every other
//! component. Fractional knobs (deadzone, gains, multipliers, curve
//! tables) are fixed-point values over [`UNIT`](crate::UNIT), so a stored
//! `UNIT` means 1.0.

use vstd::prelude::*;
use vstd::string::StringExecFns;

use crate::UNIT;

verus! {

/// Identity of the physical Thrustmaster device.
#[derive(Debug, Clone)]
pub struct ThrustmasterConfig {
    pub vid: u16,
    pub pid: u16,
    pub serial_number: Option<String>,
    pub exclusive_access: bool,
}

impl Default for ThrustmasterConfig {
    fn default() -> (c: Self)
        ensures
            c.vid == 0x044F,
            c.pid == 0x0004,
            c.serial_number is None,
            c.exclusive_access,
    {
        ThrustmasterConfig {
            vid: 0x044F,
            pid: 0x0004,
            serial_number: None,
            exclusive_access: true,
        }
    }
}

/// Identity advertised by the virtual G29 device.
#[derive(Debug, Clone)]
pub struct G29Config {
    pub vid: u16,
    pub pid: u16,
    pub product_string: String,
    pub manufacturer_string: String,
    pub serial_number: String,
    pub use_custom_vid_pid: bool,
}

impl Default for G29Config {
    fn default() -> (c: Self)
        ensures
            c.vid == 0x046D,
            c.pid == 0xC24F,
            c.product_string@ == "G29 Driving Force Racing Wheel"@,
            c.manufacturer_string@ == "Logitech"@,
            c.serial_number@ == "TM2G29001"@,
            !c.use_custom_vid_pid,
    {
        G29Config {
            vid: 0x046D,
            pid: 0xC24F,
            product_string: String::from_str("G29 Driving Force Racing Wheel"),
            manufacturer_string: String::from_str("Logitech"),
            serial_number: String::from_str("TM2G29001"),
            use_custom_vid_pid: false,
        }
    }
}

/// Shape applied to a pedal axis. `Custom` is a lookup table of
/// fixed-point output fractions in `[0, UNIT]`, interpolated linearly.
#[derive(Debug, Clone)]
pub enum CurveType {
    Linear,
    Squared,
    Cubed,
    Custom(Vec<u16>),
}

impl CurveType {
    /// A lookup table must be non-empty, with every entry a fraction.
    pub open spec fn wf(&self) -> bool {
        match self {
            CurveType::Custom(table) => table@.len() >= 1 && forall|i: int|
                0 <= i < table@.len() ==> table@[i] <= UNIT as u16,
            _ => true,
        }
    }
}

/// The curve for each pedal.
#[derive(Debug, Clone)]
pub struct PedalCurves {
    pub throttle_curve: CurveType,
    pub brake_curve: CurveType,
    pub clutch_curve: CurveType,
}

impl PedalCurves {
    pub open spec fn wf(&self) -> bool {
        self.throttle_curve.wf() && self.brake_curve.wf() && self.clutch_curve.wf()
    }
}

impl Default for PedalCurves {
    fn default() -> (c: Self)
        ensures
            c.throttle_curve is Linear,
            c.brake_curve is Linear,
            c.clutch_curve is Linear,
            c.wf(),
    {
        PedalCurves {
            throttle_curve: CurveType::Linear,
            brake_curve: CurveType::Linear,
            clutch_curve: CurveType::Linear,
        }
    }
}

/// Fixed-point multiplier per axis; `UNIT` means 1.0. The steering
/// multiplier scales the steering axis; the pedal multipliers are
/// carried for symmetry and do not shape the pedal curves.
#[derive(Debug, Clone)]
pub struct AxisScaling {
    pub steering_multiplier: u32,
    pub throttle_multiplier: u32,
    pub brake_multiplier: u32,
    pub clutch_multiplier: u32,
}

impl Default for AxisScaling {
    fn default() -> (c: Self)
        ensures
            c.steering_multiplier == UNIT,
            c.throttle_multiplier == UNIT,
            c.brake_multiplier == UNIT,
            c.clutch_multiplier == UNIT,
    {
        AxisScaling {
            steering_multiplier: UNIT,
            throttle_multiplier: UNIT,
            brake_multiplier: UNIT,
            clutch_multiplier: UNIT,
        }
    }
}

/// Input-shaping configuration.
#[derive(Debug, Clone)]
pub struct InputConfig {
    /// Degrees of rotation (270, 540, 900, ...).
    pub steering_range: u16,
    /// Centred steering deadzone as a fraction of full deflection,
    /// fixed-point over `UNIT`.
    pub steering_deadzone: u32,
    pub pedal_curves: PedalCurves,
    /// Pairs of (physical button bit, virtual button bit). Physical bits
    /// index the 16-bit wheel bitfield; virtual bits index the 24 G29
    /// buttons below the D-pad byte.
    pub button_mapping: Vec<(u8, u8)>,
    pub axis_scaling: AxisScaling,
}

impl InputConfig {
    /// The deadzone is a fraction; map keys address the 16 physical
    /// bits, map values the 24 virtual buttons; no physical bit is
    /// mapped twice and no virtual bit is produced by two entries.
    pub open spec fn wf(&self) -> bool {
        &&& self.steering_deadzone <= UNIT
        &&& self.pedal_curves.wf()
        &&& forall|i: int|
            0 <= i < self.button_mapping@.len() ==> (#[trigger] self.button_mapping@[i]).0 < 16
                && self.button_mapping@[i].1 < 24
        &&& forall|i: int, j: int|
            0 <= i < j < self.button_mapping@.len() ==> (#[trigger] self.button_mapping@[i]).0
                != (#[trigger] self.button_mapping@[j]).0 && self.button_mapping@[i].1
                != self.button_mapping@[j].1
    }
}

impl Default for InputConfig {
    fn default() -> (c: Self)
        ensures
            c.steering_range == 900,
            c.steering_deadzone == 200,
            c.pedal_curves.throttle_curve is Linear,
            c.pedal_curves.brake_curve is Linear,
            c.pedal_curves.clutch_curve is Linear,
            c.button_mapping@.len() == 14,
            forall|i: int|
                0 <= i < 14 ==> #[trigger] c.button_mapping@[i] == (i as u8, i as u8),
            c.axis_scaling.steering_multiplier == UNIT,
            c.axis_scaling.throttle_multiplier == UNIT,
            c.axis_scaling.brake_multiplier == UNIT,
            c.axis_scaling.clutch_multiplier == UNIT,
            c.wf(),
    {
        // A one-to-one mapping for the first 14 buttons.
        let mut button_mapping: Vec<(u8, u8)> = Vec::new();
        let mut i: u8 = 0;
        while i < 14
            invariant
                i <= 14,
                button_mapping@.len() == i as int,
                forall|k: int|
                    0 <= k < i as int ==> #[trigger] button_mapping@[k] == (k as u8, k as u8),
            decreases 14 - i,
        {
            button_mapping.push((i, i));
            i = i + 1;
        }

        InputConfig {
            steering_range: 900,
            steering_deadzone: 200,
            pedal_curves: PedalCurves::default(),
            button_mapping,
            axis_scaling: AxisScaling::default(),
        }
    }
}

/// LED and other non-FFB output configuration.
#[derive(Debug, Clone)]
pub struct OutputConfig {
    pub led_support: bool,
    /// Fixed-point fraction over `UNIT`.
    pub led_brightness: u32,
}

impl OutputConfig {
    pub open spec fn wf(&self) -> bool {
        self.led_brightness <= UNIT
    }
}

impl Default for OutputConfig {
    fn default() -> (c: Self)
        ensures
            c.led_support,
            c.led_brightness == UNIT,
            c.wf(),
    {
        OutputConfig { led_support: true, led_brightness: UNIT }
    }
}

/// Force-feedback shaping knobs. All gains are fixed-point fractions
/// over `UNIT`; `max_force` is in ten-thousandths of a Newton.
#[derive(Debug, Clone)]
pub struct FfbConfig {
    pub enabled: bool,
    pub global_gain: u32,
    pub spring_gain: u32,
    pub damper_gain: u32,
    pub friction_gain: u32,
    pub constant_gain: u32,
    pub periodic_gain: u32,
    pub ramp_gain: u32,
    pub autocenter_gain: u32,
    pub max_force: u32,
    pub update_rate_hz: u32,
}

impl FfbConfig {
    /// Gains are fractions; the update rate is at least one tick a
    /// second, so the update interval in milliseconds is defined.
    pub open spec fn wf(&self) -> bool {
        &&& self.global_gain <= UNIT
        &&& self.spring_gain <= UNIT
        &&& self.damper_gain <= UNIT
        &&& self.friction_gain <= UNIT
        &&& self.constant_gain <= UNIT
        &&& self.periodic_gain <= UNIT
        &&& self.ramp_gain <= UNIT
        &&& self.autocenter_gain <= UNIT
        &&& self.update_rate_hz >= 1
    }
}

impl Default for FfbConfig {
    fn default() -> (c: Self)
        ensures
            c.enabled,
            c.global_gain == UNIT,
            c.spring_gain == UNIT,
            c.damper_gain == UNIT,
            c.friction_gain == UNIT,
            c.constant_gain == UNIT,
            c.periodic_gain == UNIT,
            c.ramp_gain == UNIT,
            c.autocenter_gain == 2000,
            c.max_force == 25000,
            c.update_rate_hz == 1000,
            c.wf(),
    {
        FfbConfig {
            enabled: true,
            global_gain: UNIT,
            spring_gain: UNIT,
            damper_gain: UNIT,
            friction_gain: UNIT,
            constant_gain: UNIT,
            periodic_gain: UNIT,
            ramp_gain: UNIT,
            autocenter_gain: 2000,
            max_force: 25000,
            update_rate_hz: 1000,
        }
    }
}

/// Logging preferences, read by the shell around the core.
#[derive(Debug, Clone)]
pub struct LoggingConfig {
    pub level: String,
    pub log_to_file: bool,
    pub log_file_path: Option<String>,
    pub log_hid_reports: bool,
    pub log_ffb_commands: bool,
}

impl Default for LoggingConfig {
    fn default() -> (c: Self)
        ensures
            c.level@ == "info"@,
            !c.log_to_file,
            c.log_file_path is None,
            !c.log_hid_reports,
            !c.log_ffb_commands,
    {
        LoggingConfig {
            level: String::from_str("info"),
            log_to_file: false,
            log_file_path: None,
            log_hid_reports: false,
            log_ffb_commands: false,
        }
    }
}

/// The whole configuration, grouped by component.
#[derive(Debug, Clone)]
pub struct Config {
    pub thrustmaster_config: ThrustmasterConfig,
    pub g29_config: G29Config,
    pub input_config: InputConfig,
    pub output_config: OutputConfig,
    pub ffb_config: FfbConfig,
    pub logging_config: LoggingConfig,
}

impl Config {
    pub open spec fn wf(&self) -> bool {
        self.input_config.wf() && self.output_config.wf() && self.ffb_config.wf()
    }
}

impl Default for Config {
    fn default() -> (c: Self)
        ensures
            c.wf(),
            c.thrustmaster_config.vid == 0x044F,
            c.g29_config.vid == 0x046D,
            c.input_config.steering_deadzone == 200,
            c.ffb_config.update_rate_hz == 1000,
    {
        Config {
            thrustmaster_config: ThrustmasterConfig::default(),
            g29_config: G29Config::default(),
            input_config: InputConfig::default(),
            output_config: OutputConfig::default(),
            ffb_config: FfbConfig::default(),
            logging_config: LoggingConfig::default(),
        }
    }
}

} // verus!
