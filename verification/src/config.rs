//! Configuration values handed to the core before the tasks start.  The
//! host's loader reads and parses the configuration file; the core only
//! consumes the resulting values.
use vstd::prelude::*;

use crate::DeviceNameRetrieve;
use crate::mapping::MappingTable;
use crate::output::OutputDeviceNameRetrieve;

verus! {

/// The device section: port names and the lighting switch.
#[derive(Debug)]
pub struct DeviceConfig {
    /// Name of the input port to open, or `None` to let the host prompt.
    pub input: Option<String>,
    /// Name of the output port to open, or `None` to let the host prompt.
    pub output: Option<String>,
    /// Whether the pad-lighting overlay is enabled.
    pub lights: bool,
}

impl DeviceNameRetrieve for DeviceConfig {
    fn get_input_name(&self) -> Option<String> {
        self.input.clone()
    }

    fn get_output_name(&self) -> Option<String> {
        self.output.clone()
    }
}

impl OutputDeviceNameRetrieve for DeviceConfig {
    fn get_light_status(&self) -> bool {
        self.lights
    }
}

/// Ports of the companion integration device; both names are required.
#[derive(Debug)]
pub struct Integration {
    /// Name of the integration input port.
    pub input: String,
    /// Name of the integration output port.
    pub output: String,
}

impl DeviceNameRetrieve for Integration {
    fn get_input_name(&self) -> Option<String> {
        Some(self.input.clone())
    }

    fn get_output_name(&self) -> Option<String> {
        Some(self.output.clone())
    }
}

/// The full configuration: the pad-to-action mapping and the two device
/// sections, assembled by the host's loader before the event loop starts.
pub struct Config {
    /// The table from pitch class to action.
    pub mapping: MappingTable,
    /// Ports of the companion integration device.
    pub integration: Integration,
    /// The primary device section.
    pub device: DeviceConfig,
}

impl Config {
    /// Name of the primary device's input port, if configured.
    pub fn get_input_name(&self) -> (r: Option<String>)
        ensures
            r == self.device.input,
    {
        self.device.input.clone()
    }

    /// Name of the primary device's output port, if configured.
    pub fn get_output_name(&self) -> (r: Option<String>)
        ensures
            r == self.device.output,
    {
        self.device.output.clone()
    }
}

} // verus!
