//! macOS backend scaffolding for the virtual G29 device. The IOKit
//! user-HID integration is not wired up; the device type records the
//! configuration and a stub service id, and the shell around the
//! library performs the framework calls.

use vstd::prelude::*;
use vstd::string::StringExecFns;

use crate::config::G29Config;
use crate::device::G29InputReport;
use crate::error::{Result, TranslatorError};

verus! {

/// macOS virtual G29 device backed by a user-space virtual HID device.
pub struct MacOSVirtualG29Device {
    pub config: G29Config,
    pub _virtual_device: Option<()>,
    pub device_service: Option<u32>,
}

impl MacOSVirtualG29Device {
    /// A new macOS virtual G29 device over the given identity. With
    /// the framework not yet wired, the handle is empty and the
    /// service id is a stub.
    pub fn new(config: G29Config) -> (d: Self)
        ensures
            d.config == config,
            d._virtual_device is None,
            d.device_service == Some(12345u32),
    {
        MacOSVirtualG29Device { config, _virtual_device: None, device_service: Some(12345) }
    }

    /// Hand one input report to the virtual device. The HID report
    /// transfer is left to the shell; this accepts every report.
    pub fn send_input(&self, report: G29InputReport) -> (r: Result<()>)
        ensures
            r is Ok,
    {
        let _ = report;
        Ok(())
    }

    /// The IOKit service id of the device, when one exists.
    pub fn service_id(&self) -> (r: Option<u32>)
        ensures
            r == self.device_service,
    {
        self.device_service
    }

    /// Whether the virtual device is active.
    pub fn is_active(&self) -> (r: bool)
        ensures
            r == (self.device_service is Some),
    {
        self.device_service.is_some()
    }
}

/// macOS-side description of a physical Thrustmaster device.
#[derive(Debug, Clone)]
pub struct MacOSThrustmasterDevice {
    pub service_id: u32,
    pub registry_path: String,
    pub vid: u16,
    pub pid: u16,
    pub manufacturer: Option<String>,
    pub product: Option<String>,
}

/// Enumerate Thrustmaster devices on macOS. The IOKit matching scan is
/// not wired up, so the list is empty.
pub fn enumerate_thrustmaster_devices() -> (r: Result<Vec<MacOSThrustmasterDevice>>)
    ensures
        r matches Ok(devices) && devices@.len() == 0,
{
    Ok(Vec::new())
}

/// Whether the process holds the Input Monitoring permission that
/// modern macOS demands of virtual HID devices. The entitlement check
/// is not wired up, so the answer does not block the caller.
pub fn check_input_monitoring_permission() -> (r: Result<bool>)
    ensures
        r matches Ok(granted) && granted,
{
    Ok(true)
}

/// Obtain the Input Monitoring permission, erring with guidance when
/// it is missing.
pub fn request_input_monitoring_permission() -> (r: Result<()>)
    ensures
        r is Ok,
{
    let granted = check_input_monitoring_permission()?;
    if granted {
        Ok(())
    } else {
        Err(TranslatorError::virtual_device_error(String::from_str(
            "Input Monitoring permission required",
        )))
    }
}

} // verus!
