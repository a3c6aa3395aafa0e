//! The configuration of the service: where the scanner is, and where the
//! barcodes go.

use vstd::prelude::*;
use crate::fault::{Fault, Setting};

verus! {

/// The two settings, both present.
#[derive(Debug, PartialEq, Eq)]
pub struct Config {
    /// The path of the scanner's input device node.
    pub device_path: String,
    /// The address that completed barcodes are sent to.
    pub server_address: String,
}

/// The configuration that two looked-up values amount to: both must be
/// there, and the device path is asked for first.
pub open spec fn configured(
    device_path: Option<String>,
    server_address: Option<String>,
) -> Result<Config, Fault> {
    match (device_path, server_address) {
        (None, _) => Err(Fault::MissingConfiguration(Setting::DevicePath)),
        (Some(_), None) => Err(Fault::MissingConfiguration(Setting::ServerAddress)),
        (Some(path), Some(address)) => Ok(Config { device_path: path, server_address: address }),
    }
}

impl Setting {
    /// The name of the environment variable that holds the setting.
    pub fn variable(&self) -> (name: &'static str)
        ensures
            name@ == match self {
                Setting::DevicePath => "SCANNER_DEVICE_PATH"@,
                Setting::ServerAddress => "HTTP_SERVER_ADDRESS"@,
            },
    {
        match self {
            Setting::DevicePath => "SCANNER_DEVICE_PATH",
            Setting::ServerAddress => "HTTP_SERVER_ADDRESS",
        }
    }
}

impl Config {
    /// Checks that both settings have a value. A missing one is a fatal
    /// failure that names the setting.
    pub fn from_values(device_path: Option<String>, server_address: Option<String>) -> (loaded:
        Result<Config, Fault>)
        ensures
            loaded == configured(device_path, server_address),
            loaded matches Err(fault) ==> fault.fatal(),
    {
        match device_path {
            None => Err(Fault::MissingConfiguration(Setting::DevicePath)),
            Some(path) => match server_address {
                None => Err(Fault::MissingConfiguration(Setting::ServerAddress)),
                Some(address) => Ok(Config { device_path: path, server_address: address }),
            },
        }
    }
}

} // verus!
