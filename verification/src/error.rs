//! Error taxonomy of the translator.

use vstd::prelude::*;

verus! {

/// Typed errors surfaced by the translation core. Per-report failures
/// carry a reason; port-level and lifecycle failures are bare variants.
#[derive(Debug, Clone)]
pub enum TranslatorError {
    /// No device with the given vendor and product id.
    DeviceNotFound { vid: u16, pid: u16 },
    /// The device is already opened elsewhere.
    DeviceInUse,
    /// A HID report that does not parse.
    InvalidReport { reason: String },
    /// A force-feedback report that cannot be translated.
    FfbError { reason: String },
    /// A configuration value out of range or unreadable.
    ConfigError { reason: String },
    /// The virtual device could not be created.
    VirtualDeviceError { reason: String },
    /// Calibration could not complete.
    CalibrationError { reason: String },
    /// A protocol-level failure between the two ports.
    ProtocolError { reason: String },
    /// The device did not answer in time.
    Timeout,
    /// The operation was cancelled.
    Cancelled,
    /// The feature is not supported on this platform.
    UnsupportedPlatform,
}

pub type Result<T> = core::result::Result<T, TranslatorError>;

impl TranslatorError {
    /// Build an `InvalidReport` error with the given reason.
    pub fn invalid_report(reason: String) -> (e: Self)
        ensures
            e matches TranslatorError::InvalidReport { reason: r } && r@ == reason@,
    {
        TranslatorError::InvalidReport { reason }
    }

    /// Build an `FfbError` with the given reason.
    pub fn ffb_error(reason: String) -> (e: Self)
        ensures
            e matches TranslatorError::FfbError { reason: r } && r@ == reason@,
    {
        TranslatorError::FfbError { reason }
    }

    /// Build a `ConfigError` with the given reason.
    pub fn config_error(reason: String) -> (e: Self)
        ensures
            e matches TranslatorError::ConfigError { reason: r } && r@ == reason@,
    {
        TranslatorError::ConfigError { reason }
    }

    /// Build a `VirtualDeviceError` with the given reason.
    pub fn virtual_device_error(reason: String) -> (e: Self)
        ensures
            e matches TranslatorError::VirtualDeviceError { reason: r } && r@ == reason@,
    {
        TranslatorError::VirtualDeviceError { reason }
    }

    /// Build a `CalibrationError` with the given reason.
    pub fn calibration_error(reason: String) -> (e: Self)
        ensures
            e matches TranslatorError::CalibrationError { reason: r } && r@ == reason@,
    {
        TranslatorError::CalibrationError { reason }
    }

    /// Build a `ProtocolError` with the given reason.
    pub fn protocol_error(reason: String) -> (e: Self)
        ensures
            e matches TranslatorError::ProtocolError { reason: r } && r@ == reason@,
    {
        TranslatorError::ProtocolError { reason }
    }
}

} // verus!
