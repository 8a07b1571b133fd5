//! Windows backend scaffolding for the virtual G29 device. The ViGEm
//! bus integration is not wired up; the device type records the
//! configuration, and the shell around the library talks to the bus
//! driver.

use vstd::prelude::*;
use vstd::string::StringExecFns;

use crate::config::G29Config;
use crate::device::G29InputReport;
use crate::error::Result;

verus! {

/// Windows virtual G29 device backed by a ViGEm-style bus.
pub struct WindowsVirtualG29Device {
    pub config: G29Config,
    pub _vigem_client: Option<()>,
    pub _vigem_target: Option<()>,
}

impl WindowsVirtualG29Device {
    /// A new Windows virtual G29 device over the given identity. With
    /// the bus client not yet wired, both handles are empty.
    pub fn new(config: G29Config) -> (d: Self)
        ensures
            d.config == config,
            d._vigem_client is None,
            d._vigem_target is None,
    {
        WindowsVirtualG29Device { config, _vigem_client: None, _vigem_target: None }
    }

    /// Hand one input report to the virtual device. The bus update is
    /// left to the shell; this accepts every report.
    pub fn send_input(&self, report: G29InputReport) -> (r: Result<()>)
        ensures
            r is Ok,
    {
        let _ = report;
        Ok(())
    }

    /// Whether the virtual device is attached to the bus.
    pub fn is_connected(&self) -> (r: bool)
        ensures
            r,
    {
        true
    }

    /// A debugging path naming the virtual device on the bus.
    pub fn device_path(&self) -> (r: String)
        ensures
            r@ == "ViGEm\\G29\\"@ + self.config.serial_number@,
    {
        String::from_str("ViGEm\\G29\\").concat(self.config.serial_number.as_str())
    }
}

/// Windows-side description of a physical Thrustmaster device.
#[derive(Debug, Clone)]
pub struct WindowsThrustmasterDevice {
    pub device_path: String,
    pub instance_id: String,
    pub vid: u16,
    pub pid: u16,
    pub manufacturer: Option<String>,
    pub product: Option<String>,
}

/// Enumerate Thrustmaster devices on Windows. The device-interface
/// scan is not wired up, so the list is empty.
pub fn enumerate_thrustmaster_devices() -> (r: Result<Vec<WindowsThrustmasterDevice>>)
    ensures
        r matches Ok(devices) && devices@.len() == 0,
{
    Ok(Vec::new())
}

/// Whether the ViGEm bus driver is installed. The registry check is
/// not wired up, so the answer is the conservative `false`.
pub fn check_vigem_availability() -> (r: Result<bool>)
    ensures
        r matches Ok(available) && !available,
{
    Ok(false)
}

} // verus!
