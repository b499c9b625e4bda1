//! The connection to an iOS device through an XCTest runner.

use vstd::prelude::*;
use crate::config::{clone_text, Config};
use crate::error::BryndzaError;

verus! {

/// The hardware buttons of an iOS device.
#[derive(Debug, Clone, Copy, PartialEq, Eq, Structural)]
pub enum IOSButton {
    Home,
    VolumeUp,
    VolumeDown,
    Power,
}

/// The orientations of a device.
#[derive(Debug, Clone, Copy, PartialEq, Eq, Structural)]
pub enum DeviceOrientation {
    Portrait,
    PortraitUpsideDown,
    LandscapeLeft,
    LandscapeRight,
}

/// A connection to an XCTest runner: the configuration and the UDID of the
/// device, where the configuration names one.
pub struct XCTestConnection {
    config: Config,
    device_udid: Option<String>,
}

impl XCTestConnection {
    /// The configuration of the connection.
    pub closed spec fn config(&self) -> Config {
        self.config
    }

    /// The UDID of the device, where the configuration names one.
    pub closed spec fn device_udid(&self) -> Option<String> {
        self.device_udid
    }

    /// A connection with the device that the configuration names, if it
    /// names one.
    pub fn configured(config: &Config) -> (connection: Self)
        ensures
            connection.config() == *config,
            connection.device_udid() == config.platform.ios.device_udid,
    {
        XCTestConnection {
            config: config.clone(),
            device_udid: clone_text(&config.platform.ios.device_udid),
        }
    }

    /// Ends the connection. Nothing is held that needs to be released.
    pub fn disconnect(self) -> (result: Result<(), BryndzaError>)
        ensures
            result is Ok,
    {
        Ok(())
    }

    /// The UDID of the device, where the configuration names one.
    pub fn udid(&self) -> (udid: &Option<String>)
        ensures
            *udid == self.device_udid(),
    {
        &self.device_udid
    }
}

} // verus!
