//! Linux backend scaffolding for the virtual G29 device. The uinput
//! integration is not wired up; the device type records the
//! configuration and the conventional device node, and the shell around
//! the library performs the actual kernel calls.

use vstd::prelude::*;
use vstd::string::StringExecFns;

use crate::config::G29Config;
use crate::device::G29InputReport;
use crate::error::Result;

verus! {

/// Linux virtual G29 device backed by uinput.
pub struct LinuxVirtualG29Device {
    pub config: G29Config,
    pub _uinput_fd: Option<i32>,
    pub device_node: Option<String>,
}

impl LinuxVirtualG29Device {
    /// A new Linux virtual G29 device over the given identity. With
    /// uinput not yet wired, the handle is empty and the node is the
    /// conventional joystick path.
    pub fn new(config: G29Config) -> (d: Self)
        ensures
            d.config == config,
            d._uinput_fd is None,
            d.device_node matches Some(node) && node@ == "/dev/input/js0"@,
    {
        LinuxVirtualG29Device {
            config,
            _uinput_fd: None,
            device_node: Some(String::from_str("/dev/input/js0")),
        }
    }

    /// Hand one input report to the virtual device. The uinput event
    /// write is left to the shell; this accepts every report.
    pub fn send_input(&self, report: G29InputReport) -> (r: Result<()>)
        ensures
            r is Ok,
    {
        let _ = report;
        Ok(())
    }

    /// The device node path, when one exists.
    pub fn device_node(&self) -> (r: Option<&str>)
        ensures
            match r {
                Some(s) => self.device_node matches Some(node) && node@ == s@,
                None => self.device_node is None,
            },
    {
        match &self.device_node {
            Some(node) => Some(node.as_str()),
            None => None,
        }
    }

    /// Whether the virtual device is available.
    pub fn is_available(&self) -> (r: bool)
        ensures
            r == (self.device_node is Some),
    {
        self.device_node.is_some()
    }
}

/// Linux-side description of a physical Thrustmaster device.
#[derive(Debug, Clone)]
pub struct LinuxThrustmasterDevice {
    pub hidraw_path: String,
    pub sys_path: String,
    pub vid: u16,
    pub pid: u16,
    pub manufacturer: Option<String>,
    pub product: Option<String>,
}

/// Enumerate Thrustmaster devices on Linux. The hidraw scan is not
/// wired up, so the list is empty.
pub fn enumerate_thrustmaster_devices() -> (r: Result<Vec<LinuxThrustmasterDevice>>)
    ensures
        r matches Ok(devices) && devices@.len() == 0,
{
    Ok(Vec::new())
}

} // verus!
